use agent_network::text::{
    chars_of, find_occurrence, lines_of, parse_u32_chars, second_piece_exec, split_of, starts_with_chars,
    string_from_chars, trim_chars, u64_to_decimal, utf8_text,
};

fn cs(s: &str) -> Vec<char> {
    s.chars().collect()
}

fn st(v: &[char]) -> String {
    v.iter().collect()
}

#[test]
fn decimal_rendering_matches_display() {
    for n in [0u64, 7, 10, 99, 100, 12345, u64::MAX] {
        assert_eq!(u64_to_decimal(n), n.to_string());
    }
}

#[test]
fn decimal_reads_back() {
    for n in [0u32, 9, 10, 4096, u32::MAX] {
        assert_eq!(parse_u32_chars(&cs(&u64_to_decimal(n as u64))), Some(n));
    }
}

#[test]
fn trim_matches_std() {
    for s in ["", "  a b  ", "\t\n x\u{3000}", "\u{a0}\u{2028}", "abc", " \r\n"] {
        assert_eq!(st(&trim_chars(&cs(s))), s.trim());
        assert_eq!(st(&trim_chars(&trim_chars(&cs(s)))), s.trim());
    }
}

#[test]
fn lines_match_std() {
    for s in ["", "a", "a\n", "a\nb", "a\r\nb\r\n", "\n\n", "x\ry", "last\r", "a\n\nb"] {
        let ours: Vec<String> = lines_of(&cs(s)).iter().map(|l| st(l)).collect();
        let std: Vec<String> = s.lines().map(|l| l.to_string()).collect();
        assert_eq!(ours, std, "input {:?}", s);
    }
}

#[test]
fn split_matches_std() {
    for s in ["", ",", "a,b", "a,,b,", "name: value: more"] {
        for c in [',', ':'] {
            let ours: Vec<String> = split_of(&cs(s), c).iter().map(|l| st(l)).collect();
            let std: Vec<String> = s.split(c).map(|l| l.to_string()).collect();
            assert_eq!(ours, std);
        }
    }
}

#[test]
fn parse_u32_matches_std() {
    for s in ["0", "42", "+7", "-1", "", "+", "4294967295", "4294967296", "99999999999", "12a", " 1", "007"] {
        assert_eq!(parse_u32_chars(&cs(s)), s.parse::<u32>().ok(), "input {:?}", s);
    }
}

#[test]
fn second_piece_matches_split_nth() {
    let pat = cs("CUDA Version:");
    for s in ["| CUDA Version: 12.2 |", "no version", "CUDA Version: a CUDA Version: b", "CUDA Version:"] {
        let ours = second_piece_exec(&cs(s), &pat).map(|v| st(&v));
        let std = s.split("CUDA Version:").nth(1).map(|x| x.to_string());
        assert_eq!(ours, std);
    }
    assert_eq!(find_occurrence(&cs("abcabc"), &cs("ca")), Some(2));
    assert_eq!(find_occurrence(&cs("abc"), &cs("x")), None);
}

#[test]
fn prefix_and_conversion() {
    assert!(starts_with_chars(&cs("model name : x"), &cs("model name")));
    assert!(!starts_with_chars(&cs("model"), &cs("model name")));
    assert_eq!(string_from_chars(&chars_of("héllo")), "héllo");
}

#[test]
fn utf8_documents() {
    assert_eq!(utf8_text("héllo".as_bytes().to_vec()), Some("héllo".to_string()));
    assert_eq!(utf8_text(vec![0xff, 0xfe]), None);
    assert_eq!(utf8_text(vec![]), Some(String::new()));
}
