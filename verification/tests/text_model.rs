use voidns::doh::{upstream_name_servers, UpstreamPlan};
use voidns::net::{ip_addr_text, IpAddress};
use voidns::proto::UpstreamSel;
use voidns::redirect::wide;
use voidns::text::{chars_of, is_whitespace, split_lines, split_words, trim_chars, trim_start_matches_char};

const SAMPLES: &[&str] = &[
    "",
    "\n",
    "\n\n",
    "a",
    "a\n",
    "a\r\n",
    "a\r",
    "a\r\r\n b\n\rc",
    "  lead and trail \t",
    "\u{a0}nbsp\u{2003}em\u{3000}",
    "x\u{85}y\u{200b}z",
    "**star* ",
    "mixed\r\n\r\nlines\n\nend",
    "Ωmega ünï\tcode\n",
];

fn to_string(v: &[char]) -> String {
    v.iter().collect()
}

#[test]
fn whitespace_matches_std() {
    for n in 0u32..0x11_0000 {
        if let Some(c) = char::from_u32(n) {
            assert_eq!(is_whitespace(c), c.is_whitespace(), "U+{n:04X}");
        }
    }
}

#[test]
fn lines_match_std() {
    for s in SAMPLES {
        let ours: Vec<String> = split_lines(&chars_of(s)).iter().map(|l| to_string(l)).collect();
        let std_: Vec<String> = s.lines().map(|l| l.to_string()).collect();
        assert_eq!(ours, std_, "{s:?}");
    }
}

#[test]
fn words_and_trim_match_std() {
    for s in SAMPLES {
        let cs = chars_of(s);
        let ours: Vec<String> = split_words(&cs).iter().map(|w| to_string(w)).collect();
        let std_: Vec<String> = s.split_whitespace().map(|w| w.to_string()).collect();
        assert_eq!(ours, std_, "{s:?}");
        assert_eq!(to_string(&trim_chars(&cs)), s.trim(), "{s:?}");
        assert_eq!(to_string(&trim_start_matches_char(&cs, '*')), s.trim_start_matches('*'), "{s:?}");
    }
}

#[test]
fn utf16_matches_std() {
    for s in SAMPLES.iter().copied().chain(["\u{10000}\u{10FFFF}\u{FFFF}"]) {
        let want: Vec<u16> = s.encode_utf16().chain(std::iter::once(0)).collect();
        assert_eq!(wide(s), want, "{s:?}");
    }
}

#[test]
fn ipv4_text_matches_std() {
    for o in [[0, 0, 0, 0], [255, 255, 255, 255], [192, 168, 1, 10], [8, 8, 4, 4]] {
        assert_eq!(ip_addr_text(&IpAddress::V4(o)), format!("{}.{}.{}.{}", o[0], o[1], o[2], o[3]));
    }
}

#[test]
fn ip_parse_keeps_octets() {
    let plan = |ip: &str| upstream_name_servers(&UpstreamSel::Custom {
        ip: ip.to_string(),
        hostname: "h".into(),
        path: "/".into(),
        port: 1,
    });
    match plan("10.1.2.3") {
        Ok(UpstreamPlan::Endpoint(e)) => assert_eq!(e.ip, IpAddress::V4([10, 1, 2, 3])),
        _ => panic!("v4"),
    }
    assert!(plan("1.1.1").is_err());
    match plan("::ffff:1.2.3.4") {
        Ok(UpstreamPlan::Endpoint(e)) => {
            assert_eq!(e.ip, IpAddress::V6([0, 0, 0, 0, 0, 0, 0, 0, 0, 0, 0xff, 0xff, 1, 2, 3, 4]))
        }
        _ => panic!("v6"),
    }
}
