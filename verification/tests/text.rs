use orbitrelay::text::{chars_of, parse_u128, render_u128};

fn render(n: u128) -> String {
    render_u128(n).into_iter().collect()
}

fn parse(s: &str) -> Option<u128> {
    parse_u128(&chars_of(s))
}

#[test]
fn renders_decimal() {
    assert_eq!(render(0), "0");
    assert_eq!(render(7), "7");
    assert_eq!(render(1024), "1024");
    assert_eq!(render(u128::MAX), u128::MAX.to_string());
}

#[test]
fn parses_like_std() {
    for s in ["0", "12", "+12", "007", "340282366920938463463374607431768211455"] {
        assert_eq!(parse(s), s.parse::<u128>().ok(), "input {s}");
    }
    for s in ["", "+", "-1", "1a", "++1", " 1", "340282366920938463463374607431768211456"] {
        assert_eq!(parse(s), None, "input {s}");
        assert!(s.parse::<u128>().is_err());
    }
}

#[test]
fn parse_reads_back_render() {
    for n in [0u128, 1, 9, 10, 99, 100, 123456789, u64::MAX as u128, u128::MAX] {
        assert_eq!(parse(&render(n)), Some(n));
    }
}
