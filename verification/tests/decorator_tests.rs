use progress::decorator::{progress, progress_with_indicator};
use progress::indicator::Indicator;

#[test]
fn bounded_simple_star_end_to_end() {
    let mut p = progress(vec![10, 20, 30]).with_bound();
    let (line0, item0) = p.next();
    assert_eq!(line0, "[   ]");
    assert_eq!(item0, Some(10));
    let (line1, item1) = p.next();
    assert_eq!(line1, "[*  ]");
    assert_eq!(item1, Some(20));
    let (line2, item2) = p.next();
    assert_eq!(line2, "[** ]");
    assert_eq!(item2, Some(30));
    let (line3, item3) = p.next();
    assert_eq!(line3, "[***]");
    assert_eq!(item3, None);
}

#[test]
fn unbounded_rotating_end_to_end() {
    let glyphs = vec![String::from(","), String::from("~"), String::from("`")];
    let ind = Indicator::rotating(glyphs).unwrap();
    let mut p = progress_with_indicator(vec![0usize, 1, 2, 3, 4], ind);
    let expected = ["", "~", "``", ",,,", "~~~~"];
    for k in 0..5 {
        let (line, item) = p.next();
        assert_eq!(line, expected[k]);
        assert_eq!(item, Some(k));
    }
    let (_, exhausted) = p.next();
    assert_eq!(exhausted, None);
}

#[test]
fn unbounded_render_has_no_brackets_or_blanks() {
    let mut p = progress(vec![7u8; 4]);
    let mut prev_len = 0;
    for k in 0..5 {
        let (line, _) = p.next();
        assert!(!line.contains('['));
        assert!(!line.contains(']'));
        assert!(!line.contains(' '));
        assert_eq!(line.len(), k);
        if k > 0 {
            assert_eq!(line.len(), prev_len + 1);
        }
        prev_len = line.len();
    }
}

#[test]
fn bounded_fill_plus_blank_is_total() {
    let mut p = progress(vec![1u8; 5]).with_bound();
    for k in 0..=5 {
        let line = p.render_line();
        let core = &line[1..line.len() - 1];
        let fill = core.chars().filter(|c| *c == '*').count();
        let blank = core.chars().filter(|c| *c == ' ').count();
        assert_eq!(fill, k);
        assert_eq!(fill + blank, 5);
        assert_eq!(core.len(), 5);
        p.next();
    }
}

#[test]
fn brackets_change_frame_only() {
    let mut p = progress(vec![1, 2]).with_bound();
    let mut q = progress(vec![1, 2])
        .with_bound()
        .with_brackets((String::from("<|"), String::from("|>")));
    for _ in 0..3 {
        let lp = p.render_line();
        let lq = q.render_line();
        let core_p = &lp[1..lp.len() - 1];
        let core_q = &lq[2..lq.len() - 2];
        assert_eq!(core_p, core_q);
        p.next();
        q.next();
    }
}

#[test]
fn custom_brackets_rendered() {
    let p = progress(vec![5, 6])
        .with_bound()
        .with_brackets((String::from("<|"), String::from("|>")));
    assert_eq!(p.render_line(), "<|  |>");
}

#[test]
fn multichar_glyph_blank_alignment() {
    let ind = Indicator::simple(String::from("ab"));
    let mut p = progress_with_indicator(vec![1, 2, 3], ind).with_bound();
    let (line0, _) = p.next();
    assert_eq!(line0, "[      ]");
    let (line1, _) = p.next();
    assert_eq!(line1, "[ab    ]");
    let (line2, _) = p.next();
    assert_eq!(line2, "[abab  ]");
    let (line3, _) = p.next();
    assert_eq!(line3, "[ababab]");
}

#[test]
fn empty_sequence_bounded() {
    let mut p = progress(Vec::<u8>::new()).with_bound();
    let (line, item) = p.next();
    assert_eq!(line, "[]");
    assert_eq!(item, None);
}

#[test]
fn items_yielded_unchanged_and_in_order() {
    let mut p = progress(vec![3u64, 1, 4, 1, 5]).with_bound();
    let mut seen = Vec::new();
    loop {
        let (_, item) = p.next();
        match item {
            Some(x) => seen.push(x),
            None => break,
        }
    }
    assert_eq!(seen, vec![3u64, 1, 4, 1, 5]);
}

#[test]
fn rotating_bounded_bar_uses_current_glyph_width() {
    let glyphs = vec![String::from("-"), String::from("=>")];
    let ind = Indicator::rotating(glyphs).unwrap();
    let mut p = progress_with_indicator(vec![1, 2], ind).with_bound();
    let (line0, _) = p.next();
    // glyph "-" (width 1), 2 remaining: 2 blanks
    assert_eq!(line0, "[  ]");
    let (line1, _) = p.next();
    // glyph "=>" (width 2), fill 1, 1 remaining: 2 blanks
    assert_eq!(line1, "[=>  ]");
    let (line2, _) = p.next();
    // wrapped back to "-", fill 2, 0 remaining
    assert_eq!(line2, "[--]");
}
