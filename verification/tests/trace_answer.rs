use warp_supervisor::endpoint::{trace_url, TRACE_ENDPOINT};
use warp_supervisor::trace::{find_status_line, WarpStatus};

/// What the standard library's line splitting finds in `body`.
fn by_std_lines(body: &str) -> Option<WarpStatus> {
    body.lines().find(|x| *x == "warp=plus" || *x == "warp=on").map(|line| {
        if line == "warp=on" {
            WarpStatus::On
        } else {
            WarpStatus::Plus
        }
    })
}

#[test]
fn finds_warp_on_in_a_trace_answer() {
    let body = "fl=123f45\nh=cloudflare.com\nip=203.0.113.7\nts=1700000000.123\nvisit_scheme=https\nuag=reqwest\ncolo=FRA\nsliver=none\nhttp=http/2\nloc=DE\ntls=TLSv1.3\nsni=plaintext\nwarp=on\ngateway=off\nrbi=off\nkex=X25519\n";
    assert_eq!(find_status_line(body), Some(WarpStatus::On));
}

#[test]
fn finds_warp_plus() {
    assert_eq!(find_status_line("h=cloudflare.com\nwarp=plus\ngateway=off\n"), Some(WarpStatus::Plus));
}

#[test]
fn warp_off_is_no_status_line() {
    assert_eq!(find_status_line("h=cloudflare.com\nwarp=off\ngateway=off\n"), None);
}

#[test]
fn empty_body_has_no_status_line() {
    assert_eq!(find_status_line(""), None);
    assert_eq!(find_status_line("\n"), None);
    assert_eq!(find_status_line("\n\n\r\n"), None);
}

#[test]
fn single_line_without_line_ending_counts() {
    assert_eq!(find_status_line("warp=on"), Some(WarpStatus::On));
    assert_eq!(find_status_line("warp=plus"), Some(WarpStatus::Plus));
    assert_eq!(find_status_line("a=b\nwarp=on"), Some(WarpStatus::On));
}

#[test]
fn carriage_return_before_line_feed_ends_the_line() {
    assert_eq!(find_status_line("a=b\r\nwarp=on\r\nc=d\r\n"), Some(WarpStatus::On));
    assert_eq!(find_status_line("warp=plus\r\n"), Some(WarpStatus::Plus));
}

#[test]
fn other_carriage_returns_belong_to_the_line() {
    assert_eq!(find_status_line("warp=on\r"), None);
    assert_eq!(find_status_line("warp=on\r\r\n"), None);
    assert_eq!(find_status_line("\rwarp=on\n"), None);
    assert_eq!(find_status_line("warp=on\rwarp=on\n"), None);
}

#[test]
fn the_line_has_to_match_in_full() {
    assert_eq!(find_status_line(" warp=on\n"), None);
    assert_eq!(find_status_line("warp=on \n"), None);
    assert_eq!(find_status_line("warp=on1\n"), None);
    assert_eq!(find_status_line("xwarp=on\n"), None);
    assert_eq!(find_status_line("warp=o\n"), None);
    assert_eq!(find_status_line("warp=\n"), None);
    assert_eq!(find_status_line("warp=pluss\n"), None);
    assert_eq!(find_status_line("warp =on\n"), None);
    assert_eq!(find_status_line("warp=on\twarp=plus\n"), None);
}

#[test]
fn the_match_is_case_sensitive() {
    assert_eq!(find_status_line("WARP=ON\n"), None);
    assert_eq!(find_status_line("warp=On\n"), None);
    assert_eq!(find_status_line("Warp=plus\n"), None);
}

#[test]
fn the_first_status_line_wins() {
    assert_eq!(find_status_line("warp=plus\nwarp=on\n"), Some(WarpStatus::Plus));
    assert_eq!(find_status_line("warp=on\nwarp=plus\n"), Some(WarpStatus::On));
    assert_eq!(find_status_line("warp=off\nwarp=on\nwarp=plus"), Some(WarpStatus::On));
}

#[test]
fn text_beyond_ascii_is_read_by_characters() {
    assert_eq!(find_status_line("ort=Köln\nwarp=on\n"), Some(WarpStatus::On));
    assert_eq!(find_status_line("wärp=on\n"), None);
    assert_eq!(find_status_line("warp=on€\n"), None);
    assert_eq!(find_status_line("日本\r\nwarp=plus"), Some(WarpStatus::Plus));
}

#[test]
fn agrees_with_std_lines_on_all_short_texts() {
    let pieces = ["warp=on", "warp=plus", "\n", "\r", "x", "warp=", "\r\n", " "];
    let mut count: u32 = 0;
    for a in pieces {
        for b in pieces {
            for c in pieces {
                for d in pieces {
                    for e in ["", "\n", "\r", "warp=on"] {
                        let body = format!("{}{}{}{}{}", a, b, c, d, e);
                        assert_eq!(find_status_line(&body), by_std_lines(&body), "body {:?}", body);
                        count += 1;
                    }
                }
            }
        }
    }
    assert_eq!(count, 8 * 8 * 8 * 8 * 4);
}

#[test]
fn trace_endpoint_is_the_documented_address() {
    assert_eq!(TRACE_ENDPOINT, "https://cloudflare.com/cdn-cgi/trace");
}

#[test]
fn trace_url_is_parsed_by_the_url_parser() {
    let url = trace_url().expect("the endpoint is a valid URL");
    assert_eq!(url.scheme(), "https");
    assert_eq!(url.host_str(), Some("cloudflare.com"));
    assert_eq!(url.path(), "/cdn-cgi/trace");
    assert_eq!(url.query(), None);
    assert_eq!(url.as_str(), TRACE_ENDPOINT);
}
