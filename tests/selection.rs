use midi_shenanigans::setup::{
    ignore_from_choice, ignore_from_line, port_menu, select_port_index, IgnoreFilter,
    SelectionError,
};

#[test]
fn each_menu_choice_selects_its_filter() {
    let expected = [
        IgnoreFilter::Nothing,
        IgnoreFilter::Sysex,
        IgnoreFilter::Time,
        IgnoreFilter::SysexAndTime,
        IgnoreFilter::ActiveSense,
        IgnoreFilter::SysexAndActiveSense,
        IgnoreFilter::TimeAndActiveSense,
        IgnoreFilter::All,
    ];
    for (i, f) in expected.iter().enumerate() {
        assert_eq!(ignore_from_choice(Some(i + 1)), *f);
    }
}

#[test]
fn out_of_range_choice_falls_back_to_no_filter() {
    assert_eq!(ignore_from_choice(Some(0)), IgnoreFilter::Nothing);
    assert_eq!(ignore_from_choice(Some(9)), IgnoreFilter::Nothing);
    assert_eq!(ignore_from_choice(None), IgnoreFilter::Nothing);
    let (f, notice) = ignore_from_line("42\n");
    assert_eq!(f, IgnoreFilter::Nothing);
    assert_eq!(notice.as_deref(), Some("Input out of range. Choosing None as default"));
    let (f, notice) = ignore_from_line("abc\n");
    assert_eq!(f, IgnoreFilter::Nothing);
    assert_eq!(notice.as_deref(), Some("Could not parse Input. Chosing None as default!"));
}

#[test]
fn ignore_line_is_trimmed_and_parsed() {
    assert_eq!(ignore_from_line("  8 \n"), (IgnoreFilter::All, None));
    assert_eq!(ignore_from_line("+2\n"), (IgnoreFilter::Sysex, None));
    assert_eq!(ignore_from_line("\u{3000}3\t\r\n"), (IgnoreFilter::Time, None));
}

#[test]
fn port_index_selection() {
    assert_eq!(select_port_index("1\n", 3), Ok(1));
    assert_eq!(select_port_index(" 0 ", 1), Ok(0));
    assert_eq!(select_port_index("3\n", 3), Err(SelectionError::InvalidIndex(3)));
    assert_eq!(select_port_index("0", 0), Err(SelectionError::InvalidIndex(0)));
    assert_eq!(select_port_index("x\n", 3), Err(SelectionError::Unparsable));
    assert_eq!(select_port_index("-1", 3), Err(SelectionError::Unparsable));
    assert_eq!(select_port_index("", 3), Err(SelectionError::Unparsable));
}

#[test]
fn port_menu_numbers_from_zero() {
    let names = vec!["Synth A".to_string(), "Through".to_string()];
    assert_eq!(port_menu(&names), vec!["0: Synth A".to_string(), "1: Through".to_string()]);
    assert!(port_menu(&Vec::new()).is_empty());
}
