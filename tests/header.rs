use xcrust::header::{
    HeaderError, HeaderLine, header_comment, header_line, header_pair, lookup, lookup_multiple, parse,
    parse_header, require, trim_bytes,
};

#[test]
fn it_parses_header_pair() {
    assert_eq!(
        header_pair(b"key : value"),
        Ok((&b""[..], HeaderLine::HeaderPair { key: &b"key"[..], value: &b"value"[..] }))
    );
}

#[test]
fn it_parses_header_comment() {
    assert_eq!(
        header_comment(b"% Some comment"),
        Ok((&b""[..], HeaderLine::HeaderComment { comment: &b"Some comment"[..] }))
    );
}

#[test]
fn it_stops_after_header_pair() {
    assert_eq!(
        header_line(b"% key: value\nleftover"),
        Ok((&b"\nleftover"[..], HeaderLine::HeaderPair { key: &b"key"[..], value: &b"value"[..] }))
    );
}

#[test]
fn it_stops_after_header_comment() {
    assert_eq!(
        header_line(b"% Some comment\nleftover"),
        Ok((&b"\nleftover"[..], HeaderLine::HeaderComment { comment: &b"Some comment"[..] }))
    );
}

#[test]
fn it_parses_header_line_small() {
    let r = parse_header(HEADER_FIXTURE_SMALL.as_bytes());
    assert_eq!(
        r.clone().map(|vs| vs.1[0]),
        Ok(HeaderLine::HeaderPair { key: &b"Program"[..], value: &b"./adextract"[..] })
    );
    assert_eq!(r.map(|vs| vs.1[1]), Ok(HeaderLine::HeaderComment { comment: &b"Some comment"[..] }));
}

#[test]
fn it_parses_header_big() {
    let (m, _) = parse(HEADER_FIXTURE.as_bytes()).unwrap();
    assert_eq!(lookup(&m, "Program"), Some(&b"./adextract"[..]));
    assert_eq!(require(&m, "Argc"), Ok(&b"8"[..]));
}

#[test]
fn small_header_has_all_its_lines() {
    let (rest, lines) = parse_header(HEADER_FIXTURE_SMALL.as_bytes()).unwrap();
    assert_eq!(rest, &b""[..]);
    assert_eq!(lines.len(), 5);
    assert_eq!(lines[2], HeaderLine::HeaderComment { comment: &b""[..] });
    assert_eq!(lines[3], HeaderLine::HeaderPair { key: &b"Program Version"[..], value: &b"1.18"[..] });
    assert_eq!(lines[4], HeaderLine::HeaderPair { key: &b"Argc"[..], value: &b"8"[..] });
}

#[test]
fn parse_leaves_the_binary_data() {
    let mut file = b"%%BEGINHEADER\n% a: 1\n%%ENDHEADER\n".to_vec();
    file.extend_from_slice(&[0, 255, 10, 37]);
    let (m, data) = parse(&file).unwrap();
    assert_eq!(data, &[0u8, 255, 10, 37][..]);
    assert_eq!(lookup(&m, "a"), Some(&b"1"[..]));
}

#[test]
fn parse_accepts_a_header_without_lines() {
    let (m, data) = parse(b"%%BEGINHEADER\n%%ENDHEADER\nxyz").unwrap();
    assert_eq!(m.header.len(), 0);
    assert_eq!(data, &b"xyz"[..]);
}

#[test]
fn parse_rejects_missing_markers() {
    assert!(matches!(parse(b"% a: 1\n%%ENDHEADER\n"), Err(HeaderError::ParseError { .. })));
    assert!(matches!(parse(b"%%BEGINHEADER\n% a: 1\n"), Err(HeaderError::ParseError { .. })));
    assert!(matches!(parse(b"%%BEGINHEADER\n% a: 1\nnot a line\n%%ENDHEADER\n"), Err(HeaderError::ParseError { .. })));
}

#[test]
fn lookup_finds_the_first_of_repeated_keys() {
    let (m, _) = parse(b"%%BEGINHEADER\n% k: first\n% other: x\n% k: second\n%%ENDHEADER\n").unwrap();
    assert_eq!(lookup(&m, "k"), Some(&b"first"[..]));
    assert_eq!(lookup(&m, "missing"), None);
    assert_eq!(lookup(&m, "K"), None);
    assert_eq!(require(&m, "k"), Ok(&b"first"[..]));
    assert_eq!(require(&m, "missing"), Err(HeaderError::UnknownKey { key: "missing".to_string() }));
    assert_eq!(lookup_multiple(m, "k"), vec![&b"first"[..], &b"second"[..]]);
}

#[test]
fn pair_key_and_value_are_trimmed() {
    assert_eq!(
        header_line(b"% Argv[1] :\tdata/original.spk.raw"),
        Ok((&b""[..], HeaderLine::HeaderPair { key: &b"Argv[1]"[..], value: &b"data/original.spk.raw"[..] }))
    );
}

#[test]
fn pair_without_value_is_a_comment() {
    assert_eq!(
        header_line(b"% key:\nrest"),
        Ok((&b"\nrest"[..], HeaderLine::HeaderComment { comment: &b"key:"[..] }))
    );
}

#[test]
fn bare_percent_is_an_empty_comment() {
    assert_eq!(header_line(b"%\nrest"), Ok((&b"\nrest"[..], HeaderLine::HeaderComment { comment: &b""[..] })));
    assert!(matches!(header_line(b"%"), Err(HeaderError::ParseError { .. })));
    assert!(matches!(header_line(b"%%ENDHEADER\n"), Err(HeaderError::ParseError { .. })));
    assert!(matches!(header_pair(b": value"), Err(HeaderError::ParseError { .. })));
}

#[test]
fn trim_removes_surrounding_white_space() {
    assert_eq!(trim_bytes(b" \t a b \r\n"), &b"a b"[..]);
    assert_eq!(trim_bytes(b"   "), &b""[..]);
}

#[test]
fn trim_matches_str_trim() {
    let samples = [
        "\u{0B}k\u{0B}",
        "\u{A0}key\u{85}",
        "\u{3000}\u{2009}v a l\u{2028}\u{202F}\u{1680}",
        "\u{205F}\u{2029}",
        "caf\u{E9}\u{2002}",
        "\u{2000}\u{200A}x\u{200B}",
        "",
    ];
    for t in samples.iter() {
        assert_eq!(trim_bytes(t.as_bytes()), t.trim().as_bytes());
    }
}

#[test]
fn vertical_tab_around_a_key_is_trimmed() {
    assert_eq!(
        header_pair(b"\x0bk:v\nrest"),
        Ok((&b"\nrest"[..], HeaderLine::HeaderPair { key: &b"k"[..], value: &b"v"[..] }))
    );
    let (m, _) = parse(b"%%BEGINHEADER\n% \x0bk: v\n%%ENDHEADER\n").unwrap();
    assert_eq!(lookup(&m, "k"), Some(&b"v"[..]));
    let (m, _) = parse("%%BEGINHEADER\n% \u{A0}Probe\u{A0}: 1\u{3000}\n%%ENDHEADER\n".as_bytes()).unwrap();
    assert_eq!(lookup(&m, "Probe"), Some(&b"1"[..]));
}

const HEADER_FIXTURE_SMALL: &str = r#"%%BEGINHEADER
% Program: 	./adextract
% Some comment
%
% Program Version: 	1.18
% Argc: 	8
%%ENDHEADER
"#;

const HEADER_FIXTURE: &str = r#"%%BEGINHEADER
% Program: 	./adextract
% Program Version: 	1.18
% Argc: 	8
% Argv[1] :	data/original.spk.raw
% Argv[2] :	-eslen80
% Argv[3] :	-t
% Argv[4] :	-probe
% Argv[5] :	0
% Argv[6] :	-o
% Argv[7] :	data/original.tt
% Date: 	Mon Oct 22 16:49:04 2012
% Directory: 	/home/stuart/src/mwl-svn-export/bin
% Hostname: 	ubuntu
% Architecture: 	i686
% User: 	stuart ()
% File type: 	Binary
% Extraction type: 	tetrode waveforms
% Probe: 	0
% Fields: 	timestamp,8,4,1	waveform,2,2,128	
%
% Beginning of header from input file 'data/original.spk.raw'
% mode: SPIKE
% adversion: 		1.36b
% rate: 		250000.000000
% nelectrodes: 2
% nchannels: 		8
% nelect_chan: 		4
% errors: 		0
% disk_errors: 		0
% dma_bufsize: 		24576
% spikelen: 		32
% spikesep: 		26
% channel 0 ampgain: 	24994
% channel 0 adgain: 	0
% channel 0 filter: 	200
% channel 0 threshold: 	425
% channel 0 color: 		15
% channel 0 offset: 	65
% channel 0 contscale: 	0
% channel 1 ampgain: 	24994
% channel 1 adgain: 	0
% channel 1 filter: 	200
% channel 1 threshold: 	425
% channel 1 color: 		14
% channel 1 offset: 	122
% channel 1 contscale: 	0
% channel 2 ampgain: 	24994
% channel 2 adgain: 	0
% channel 2 filter: 	200
% channel 2 threshold: 	425
% channel 2 color: 		13
% channel 2 offset: 	180
% channel 2 contscale: 	0
% channel 3 ampgain: 	24994
% channel 3 adgain: 	0
% channel 3 filter: 	200
% channel 3 threshold: 	425
% channel 3 color: 		12
% channel 3 offset: 	238
% channel 3 contscale: 	0
% channel 4 ampgain: 	24994
% channel 4 adgain: 	0
% channel 4 filter: 	200
% channel 4 threshold: 	325
% channel 4 color: 		11
% channel 4 offset: 	296
% channel 4 contscale: 	0
% channel 5 ampgain: 	24994
% channel 5 adgain: 	0
% channel 5 filter: 	200
% channel 5 threshold: 	325
% channel 5 color: 		10
% channel 5 offset: 	353
% channel 5 contscale: 	0
% channel 6 ampgain: 	24994
% channel 6 adgain: 	0
% channel 6 filter: 	200
% channel 6 threshold: 	325
% channel 6 color: 		9
% channel 6 offset: 	411
% channel 6 contscale: 	0
% channel 7 ampgain: 	24994
% channel 7 adgain: 	0
% channel 7 filter: 	200
% channel 7 threshold: 	325
% channel 7 color: 		8
% channel 7 offset: 	469
% channel 7 contscale: 	0
% spike_size: 		264
% fields: int electrode_num; long timestamp; int data[128]
% End of header from input file 'data/original.spk.raw'
%
%%ENDHEADER
"#;
