use polygon_client::text::{push_decimal, to_ascii_lower};

fn u32_to_decimal(n: u32) -> String {
    let mut s = String::new();
    push_decimal(&mut s, n);
    s
}

#[test]
fn decimal_edge_values() {
    assert_eq!(u32_to_decimal(0), "0");
    assert_eq!(u32_to_decimal(7), "7");
    assert_eq!(u32_to_decimal(10), "10");
    assert_eq!(u32_to_decimal(120), "120");
    assert_eq!(u32_to_decimal(4294967295), "4294967295");
}

#[test]
fn decimal_matches_std_formatting() {
    let mut n: u32 = 0;
    while n < 100_000 {
        assert_eq!(u32_to_decimal(n), n.to_string());
        n += 7;
    }
    for n in [u32::MAX, u32::MAX - 1, 1 << 31, 1_000_000_000] {
        assert_eq!(u32_to_decimal(n), n.to_string());
    }
}

#[test]
fn decimal_round_trip() {
    for n in [0u32, 1, 9, 10, 11, 12345, u32::MAX] {
        let s = u32_to_decimal(n);
        assert!(s.chars().all(|c| c.is_ascii_digit()));
        assert!(n == 0 || !s.starts_with('0'));
        assert_eq!(s.parse::<u32>().unwrap(), n);
    }
}

#[test]
fn push_decimal_appends() {
    let mut s = String::from("x=");
    push_decimal(&mut s, 42);
    assert_eq!(s, "x=42");
}

#[test]
fn ascii_lowercasing() {
    assert_eq!(to_ascii_lower("Trades"), "trades");
    assert_eq!(to_ascii_lower("QUOTES"), "quotes");
    assert_eq!(to_ascii_lower("already lower 123"), "already lower 123");
    assert_eq!(to_ascii_lower(""), "");
    assert_eq!(to_ascii_lower("AZaz@[`{"), "azaz@[`{");
    assert_eq!(to_ascii_lower("ÉCOLE"), "École");
}

#[test]
fn ascii_lowercasing_idempotent() {
    for s in ["MiXeD", "abc", "ABC-123", ""] {
        let once = to_ascii_lower(s);
        assert_eq!(to_ascii_lower(&once), once);
        assert_eq!(once.chars().count(), s.chars().count());
        assert_eq!(once, s.to_lowercase());
    }
}
