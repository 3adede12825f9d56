use evtdecode::ident::{format_guid, format_sid, parse_guid, parse_sid, Guid, Sid};

#[test]
fn guid_formats_canonically() {
    let g = Guid {
        data1: 0x0001_02A3,
        data2: 0x04B5,
        data3: 0x06C7,
        data4: [0x08, 0xD9, 0x0A, 0xEB, 0x0C, 0xFD, 0x0E, 0x0F],
    };
    assert_eq!(format_guid(&g), "{000102a3-04b5-06c7-08d9-0aeb0cfd0e0f}");
}

#[test]
fn guid_format_is_deterministic_and_shaped() {
    let g = Guid {
        data1: 0xDEADBEEF,
        data2: 0xFFFF,
        data3: 0x0000,
        data4: [0xFF, 0x00, 0x12, 0x34, 0x56, 0x78, 0x9A, 0xBC],
    };
    let a = format_guid(&g);
    let b = format_guid(&g);
    assert_eq!(a, b);
    assert_eq!(a.len(), 38);
    let cs: Vec<char> = a.chars().collect();
    assert_eq!(cs[0], '{');
    assert_eq!(cs[37], '}');
    for &i in &[9usize, 14, 19, 24] {
        assert_eq!(cs[i], '-');
    }
    for (i, &c) in cs.iter().enumerate() {
        if i != 0 && i != 37 && i != 9 && i != 14 && i != 19 && i != 24 {
            assert!(c.is_ascii_hexdigit() && !c.is_ascii_uppercase());
        }
    }
}

#[test]
fn guid_parses_its_mixed_endian_layout() {
    let bytes: Vec<u8> = vec![
        0xA3, 0x02, 0x01, 0x00, // data1 little-endian
        0xB5, 0x04, // data2
        0xC7, 0x06, // data3
        0x08, 0xD9, 0x0A, 0xEB, 0x0C, 0xFD, 0x0E, 0x0F,
    ];
    let g = parse_guid(&bytes, 0);
    assert_eq!(g.data1, 0x000102A3);
    assert_eq!(g.data2, 0x04B5);
    assert_eq!(g.data3, 0x06C7);
    assert_eq!(g.data4, [0x08, 0xD9, 0x0A, 0xEB, 0x0C, 0xFD, 0x0E, 0x0F]);
}

#[test]
fn sid_formats_canonically() {
    let s = Sid {
        revision: 1,
        authority: 5,
        sub_authorities: vec![18],
    };
    assert_eq!(format_sid(&s), "S-1-5-18");

    let s2 = Sid {
        revision: 1,
        authority: 5,
        sub_authorities: vec![21, 3_623_811_015, 3_361_044_348, 30_300, 1013],
    };
    assert_eq!(format_sid(&s2), "S-1-5-21-3623811015-3361044348-30300-1013");
}

#[test]
fn sid_large_authority_renders_as_48_bit_integer() {
    let s = Sid {
        revision: 1,
        authority: 0x0000_0100_0000_0000u64 + 5,
        sub_authorities: vec![1],
    };
    assert_eq!(format_sid(&s), "S-1-1099511627781-1");
}

#[test]
fn sid_dash_count_carries_sub_authority_count() {
    for n in 0u32..6 {
        let s = Sid {
            revision: 1,
            authority: 5,
            sub_authorities: (0..n).collect(),
        };
        let formatted = format_sid(&s);
        let dashes = formatted.chars().filter(|&c| c == '-').count() as u32;
        if n == 0 {
            assert_eq!(dashes, 3);
        } else {
            assert_eq!(dashes, n + 2);
        }
        let tail = formatted.strip_prefix("S-1-5-").unwrap();
        let parts: Vec<&str> = if tail.is_empty() {
            Vec::new()
        } else {
            tail.split('-').collect()
        };
        assert_eq!(parts.len() as u32, n);
    }
}

#[test]
fn sid_parses_its_byte_layout() {
    // revision 1, two sub-authorities, authority 5 big-endian,
    // then 32 and 544 little-endian.
    let bytes: Vec<u8> = vec![
        1, 2, 0, 0, 0, 0, 0, 5, 32, 0, 0, 0, 32, 2, 0, 0,
    ];
    let s = parse_sid(&bytes).unwrap();
    assert_eq!(s.revision, 1);
    assert_eq!(s.authority, 5);
    assert_eq!(s.sub_authorities, vec![32, 544]);
    assert_eq!(format_sid(&s), "S-1-5-32-544");
}

#[test]
fn truncated_sid_is_refused() {
    let too_short: Vec<u8> = vec![1, 2, 0, 0];
    assert!(parse_sid(&too_short).is_none());
    // declares two sub-authorities but carries only one
    let missing_subs: Vec<u8> = vec![1, 2, 0, 0, 0, 0, 0, 5, 32, 0, 0, 0];
    assert!(parse_sid(&missing_subs).is_none());
}
