use statusline::cpu::parse_cpu_line;
use statusline::decimal::{
    digit_of, digit_str, parse_bounded, parse_u32, parse_u64, push_decimal, push_int, push_padded,
};
use statusline::memory::parse_field;
use statusline::scan::{agrees, blank, next_token, pass_blanks, pass_token, pass_word};
use statusline::text::{
    chars_of, find_line_end, find_line_start, line_chars, same_chars, slice_chars, starts_with,
};
use statusline::{first_line, CpuCounters};

fn reference_cpu(line: &str) -> Option<CpuCounters> {
    let mut tokens = scan_fmt::parse::scan(line, "cpu {} {} {} {}");
    let mut fields = [0u64; 4];
    let mut ok = true;
    for field in fields.iter_mut() {
        match tokens.next() {
            Some(item) => match item.parse::<u64>() {
                Ok(v) => *field = v,
                Err(_) => ok = false,
            },
            None => ok = false,
        }
    }
    if ok {
        Some(CpuCounters {
            user: fields[0],
            user_low: fields[1],
            system: fields[2],
            idle: fields[3],
        })
    } else {
        None
    }
}

fn reference_field(line: &str, format: &str) -> Option<u32> {
    let mut tokens = scan_fmt::parse::scan(line, format);
    match tokens.next() {
        Some(item) => item.parse::<u32>().ok(),
        None => None,
    }
}

#[test]
fn digits_are_read() {
    assert_eq!(digit_of('0'), Some(0));
    assert_eq!(digit_of('7'), Some(7));
    assert_eq!(digit_of('9'), Some(9));
    assert_eq!(digit_of('/'), None);
    assert_eq!(digit_of(':'), None);
    assert_eq!(digit_of('a'), None);
    assert_eq!(digit_of('٣'), None);
    assert_eq!(digit_str(0), "0");
    assert_eq!(digit_str(9), "9");
}

#[test]
fn unsigned_numbers_are_read() {
    assert_eq!(parse_u32("0"), Some(0));
    assert_eq!(parse_u32("42"), Some(42));
    assert_eq!(parse_u32("+42"), Some(42));
    assert_eq!(parse_u32("0042"), Some(42));
    assert_eq!(parse_u32("4294967295"), Some(u32::MAX));
    assert_eq!(parse_u32("000000000000000000000004294967295"), Some(u32::MAX));
    assert_eq!(parse_u64("18446744073709551615"), Some(u64::MAX));
    assert_eq!(parse_u64("4294967296"), Some(4294967296));
}

#[test]
fn unsigned_numbers_are_rejected() {
    assert_eq!(parse_u32(""), None);
    assert_eq!(parse_u32("+"), None);
    assert_eq!(parse_u32("-"), None);
    assert_eq!(parse_u32("-1"), None);
    assert_eq!(parse_u32("++1"), None);
    assert_eq!(parse_u32("1+"), None);
    assert_eq!(parse_u32(" 1"), None);
    assert_eq!(parse_u32("1 "), None);
    assert_eq!(parse_u32("1_000"), None);
    assert_eq!(parse_u32("0x10"), None);
    assert_eq!(parse_u32("12a"), None);
    assert_eq!(parse_u32("١٢"), None);
    assert_eq!(parse_u32("4294967296"), None);
    assert_eq!(parse_u32("99999999999999999999999999999999999999999999"), None);
    assert_eq!(parse_u64("18446744073709551616"), None);
    assert_eq!(parse_u64("184467440737095516150"), None);
}

#[test]
fn unsigned_numbers_agree_with_std() {
    let samples = [
        "", "0", "00", "7", "+7", "-7", "+", "-", "+-7", "7+", "4294967295", "4294967296",
        "18446744073709551615", "18446744073709551616", "340282366920938463463374607431768211456",
        "12 ", " 12", "1e3", "٣", "1٣", "0000000000000000000000000000000001", "+0", "-0",
    ];
    for text in samples.iter() {
        assert_eq!(parse_u32(text), text.parse::<u32>().ok());
        assert_eq!(parse_u64(text), text.parse::<u64>().ok());
    }
}

#[test]
fn bounded_numbers_within_a_text() {
    let chars = chars_of("ab 120 cd");
    assert_eq!(parse_bounded(&chars, 3, 6, 200), Some(120));
    assert_eq!(parse_bounded(&chars, 3, 6, 120), Some(120));
    assert_eq!(parse_bounded(&chars, 3, 6, 119), None);
    assert_eq!(parse_bounded(&chars, 3, 5, 119), Some(12));
    assert_eq!(parse_bounded(&chars, 3, 3, 119), None);
    assert_eq!(parse_bounded(&chars, 2, 6, 200), None);
    assert_eq!(parse_bounded(&chars, 0, 9, 200), None);
}

#[test]
fn numbers_are_written() {
    let mut out = String::from("n=");
    push_decimal(&mut out, 0);
    assert_eq!(out, "n=0");
    push_decimal(&mut out, 1234567890);
    assert_eq!(out, "n=01234567890");
    let mut out = String::new();
    push_decimal(&mut out, u64::MAX);
    assert_eq!(out, "18446744073709551615");
}

#[test]
fn numbers_are_padded() {
    let mut out = String::new();
    push_padded(&mut out, 7, 2);
    out.push('|');
    push_padded(&mut out, 12, 2);
    out.push('|');
    push_padded(&mut out, 123, 2);
    out.push('|');
    push_padded(&mut out, 0, 4);
    out.push('|');
    push_padded(&mut out, 0, 0);
    out.push('|');
    push_padded(&mut out, 0, 1);
    out.push('|');
    push_padded(&mut out, 45, 0);
    assert_eq!(out, "07|12|123|0000|0|0|45");
}

#[test]
fn written_numbers_agree_with_std() {
    let samples = [0u64, 1, 9, 10, 11, 99, 100, 101, 999, 1000, 65535, 4294967295, u64::MAX];
    for n in samples.iter() {
        let mut plain = String::new();
        push_decimal(&mut plain, *n);
        assert_eq!(plain, format!("{}", n));
        let mut two = String::new();
        push_padded(&mut two, *n, 2);
        assert_eq!(two, format!("{:02}", n));
        let mut four = String::new();
        push_padded(&mut four, *n, 4);
        assert_eq!(four, format!("{:04}", n));
    }
}

#[test]
fn integers_are_written_with_their_sign() {
    let samples = [0i64, 1, -1, 60, -150, 100, i64::MAX, i64::MIN, -429496729400];
    for v in samples.iter() {
        let mut out = String::new();
        push_int(&mut out, *v);
        assert_eq!(out, format!("{}", v));
    }
}

#[test]
fn written_numbers_read_back() {
    let samples = [0u64, 5, 10, 100, 4294967295, 4294967296, u64::MAX];
    for n in samples.iter() {
        let mut out = String::new();
        push_decimal(&mut out, *n);
        assert_eq!(parse_u64(&out), Some(*n));
    }
}

#[test]
fn characters_of_a_text() {
    assert_eq!(chars_of(""), Vec::<char>::new());
    assert_eq!(chars_of("a°↓"), vec!['a', '°', '↓']);
    assert_eq!(slice_chars(&chars_of("abcdef"), 2, 4), vec!['c', 'd']);
    assert_eq!(slice_chars(&chars_of("abcdef"), 6, 6), Vec::<char>::new());
}

#[test]
fn prefixes_and_equality() {
    assert!(starts_with(&chars_of("Discharging"), &chars_of("Dis")));
    assert!(starts_with(&chars_of("Dis"), &chars_of("Dis")));
    assert!(starts_with(&chars_of("Dis"), &chars_of("")));
    assert!(!starts_with(&chars_of("Di"), &chars_of("Dis")));
    assert!(!starts_with(&chars_of("Charging"), &chars_of("Dis")));
    assert!(same_chars(&chars_of("1"), &chars_of("1")));
    assert!(same_chars(&chars_of(""), &chars_of("")));
    assert!(!same_chars(&chars_of("1"), &chars_of("11")));
    assert!(!same_chars(&chars_of("11"), &chars_of("1")));
    assert!(!same_chars(&chars_of("1"), &chars_of("0")));
}

#[test]
fn first_line_stops_at_the_line_feed() {
    assert_eq!(first_line("45000\n"), "45000");
    assert_eq!(first_line("45000"), "45000");
    assert_eq!(first_line("Charging\nrest\n"), "Charging");
    assert_eq!(first_line("\nrest"), "");
    assert_eq!(first_line(""), "");
    assert_eq!(first_line("a\r\nb"), "a\r");
    assert_eq!(first_line("°C↓\n⚡"), "°C↓");
}

#[test]
fn lines_by_position() {
    let chars = chars_of("one\ntwo\n\nfour");
    assert_eq!(find_line_end(&chars, 0), 3);
    assert_eq!(find_line_end(&chars, 3), 3);
    assert_eq!(find_line_end(&chars, 4), 7);
    assert_eq!(find_line_end(&chars, 13), 13);
    assert_eq!(find_line_start(&chars, 0), 0);
    assert_eq!(find_line_start(&chars, 1), 4);
    assert_eq!(find_line_start(&chars, 2), 8);
    assert_eq!(find_line_start(&chars, 3), 9);
    assert_eq!(find_line_start(&chars, 4), 13);
    assert_eq!(find_line_start(&chars, 9), 13);
    assert_eq!(line_chars(&chars, 0), chars_of("one"));
    assert_eq!(line_chars(&chars, 1), chars_of("two"));
    assert_eq!(line_chars(&chars, 2), chars_of(""));
    assert_eq!(line_chars(&chars, 3), chars_of("four"));
    assert_eq!(line_chars(&chars, 4), chars_of(""));
    let fed = chars_of("one\n");
    assert_eq!(line_chars(&fed, 0), chars_of("one"));
    assert_eq!(line_chars(&fed, 1), chars_of(""));
}

#[test]
fn blanks_and_tokens() {
    assert!(blank(' '));
    assert!(blank('\t'));
    assert!(blank('\n'));
    assert!(blank('\r'));
    assert!(!blank('a'));
    assert!(!blank('\u{a0}'));
    assert!(!blank('\u{b}'));
    let chars = chars_of("  ab \t cd");
    assert_eq!(pass_blanks(&chars, 0), 2);
    assert_eq!(pass_blanks(&chars, 2), 2);
    assert_eq!(pass_blanks(&chars, 4), 7);
    assert_eq!(pass_blanks(&chars, 9), 9);
    assert_eq!(pass_token(&chars, 2), 4);
    assert_eq!(pass_token(&chars, 0), 0);
    assert_eq!(pass_token(&chars, 7), 9);
    assert_eq!(next_token(&chars, 0), (2, 4));
    assert_eq!(next_token(&chars, 4), (7, 9));
    assert_eq!(next_token(&chars, 9), (9, 9));
}

#[test]
fn words_are_matched_past_blanks() {
    let word = chars_of("cpu");
    assert_eq!(pass_word(&chars_of("cpu 1"), 0, &word), Some(3));
    assert_eq!(pass_word(&chars_of("  cpu 1"), 0, &word), Some(5));
    assert_eq!(pass_word(&chars_of("c p u"), 0, &word), Some(5));
    assert_eq!(pass_word(&chars_of("cp"), 0, &word), None);
    assert_eq!(pass_word(&chars_of("cpx"), 0, &word), None);
    assert_eq!(pass_word(&chars_of(""), 0, &word), None);
    assert_eq!(pass_word(&chars_of("xx"), 1, &chars_of("")), Some(1));
    let unit = chars_of("kB");
    assert!(agrees(&chars_of(" kB"), 0, &unit));
    assert!(agrees(&chars_of(" k"), 0, &unit));
    assert!(agrees(&chars_of("   "), 0, &unit));
    assert!(agrees(&chars_of(""), 0, &unit));
    assert!(agrees(&chars_of("k B and more"), 0, &unit));
    assert!(!agrees(&chars_of(" MB"), 0, &unit));
    assert!(!agrees(&chars_of(" kb"), 0, &unit));
    assert!(!agrees(&chars_of("B"), 0, &unit));
}

#[test]
fn cpu_lines_agree_with_scan_fmt() {
    let samples = [
        "cpu  74608 2520 24433 1117073 6176 4054 0 0 0 0",
        "cpu 1 2 3 4",
        "cpu 1 2 3",
        "cpu",
        "cp",
        "",
        " ",
        "   cpu 1 2 3 4",
        "c p u 1 2 3 4",
        "cpu1 2 3 4",
        "cpu0 74608 2520 24433 1117073",
        "cpu\t1\t2\t3\t4",
        "cpu 1 2 3 4\n",
        "cpu 1\n2\r\n3 4",
        "cpu +1 +2 +3 +4",
        "cpu -1 2 3 4",
        "cpu 1 2 3 4.5",
        "cpu 1 2 3 x",
        "cpu x 2 3 4",
        "cpu 1,2,3,4",
        "cpu 18446744073709551615 18446744073709551615 0 0",
        "cpu 18446744073709551616 0 0 0",
        "cpu 0 0 0 00000000000000000000000000000000000000009",
        "CPU 1 2 3 4",
        "intr 1 2 3 4",
        "cpu 1 2 3 4 trailing words",
        "cpu{} 1 2 3 4",
        "xcpu 1 2 3 4",
        "cpu  ١ 2 3 4",
    ];
    for line in samples.iter() {
        assert_eq!(parse_cpu_line(line), reference_cpu(line));
    }
}

#[test]
fn memory_fields_agree_with_scan_fmt() {
    let keys = [
        ("MemTotal:", "MemTotal:{*[ ]}{} kB"),
        ("MemAvailable:", "MemAvailable:{*[ ]}{} kB"),
        ("SwapCached:", "SwapCached:{*[ ]}{} kB"),
    ];
    let tails = [
        "       16384 kB",
        "16384 kB",
        " 16384",
        " 16384 ",
        " 16384 k",
        " 16384 kB and more",
        " 16384 kBytes",
        " 16384 k B",
        " 16384 MB",
        " 16384 kb",
        " 16384kB",
        " 16384\tkB\r",
        "\t16384 kB",
        " +16384 kB",
        " -16384 kB",
        " 4294967295 kB",
        " 4294967296 kB",
        " 0 kB",
        "",
        " ",
        " kB",
        " k",
        " x kB",
        " 1 2 kB",
    ];
    for (key, format) in keys.iter() {
        for tail in tails.iter() {
            let line = format!("{}{}", key, tail);
            assert_eq!(parse_field(&chars_of(&line), key), reference_field(&line, format));
            let indented = format!("  {}{}", key, tail);
            assert_eq!(parse_field(&chars_of(&indented), key), reference_field(&indented, format));
        }
        for line in ["", "Mem", "MemFree: 5 kB", "memtotal: 5 kB", "Swap Cached : 5 kB"].iter() {
            assert_eq!(parse_field(&chars_of(line), key), reference_field(line, format));
        }
    }
}
