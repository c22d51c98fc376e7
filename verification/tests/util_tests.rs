use germina::util::parse_on_off;

#[test]
fn parse_on_off_accepts_on_words() {
    for s in ["on", "ON", " true ", "True", "1", "\ton\n"] {
        assert_eq!(parse_on_off(s), Ok(true), "input {:?}", s);
    }
}

#[test]
fn parse_on_off_accepts_off_words() {
    for s in ["off", "OFF", "false", " FALSE", "0"] {
        assert_eq!(parse_on_off(s), Ok(false), "input {:?}", s);
    }
}

#[test]
fn parse_on_off_rejects_other_words() {
    assert_eq!(
        parse_on_off("yes"),
        Err("Expected one of: on/off, true/false, 1/0; got: yes".to_string())
    );
    assert_eq!(
        parse_on_off(" 2 "),
        Err("Expected one of: on/off, true/false, 1/0; got:  2 ".to_string())
    );
    assert!(parse_on_off("").is_err());
    assert!(parse_on_off("o n").is_err());
}

#[test]
fn parse_on_off_reads_printed_booleans() {
    assert_eq!(parse_on_off(&true.to_string()), Ok(true));
    assert_eq!(parse_on_off(&false.to_string()), Ok(false));
}
