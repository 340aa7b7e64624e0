use xcrust::ad_file::{FileError, parse_p, parse_spikes, read_position_file, read_spike_file};
use xcrust::config::{ConfigError, InputFormat, UsageError, gain_key_bytes, gain_texts, input_format, probe_offset};
use xcrust::header::{HeaderError, parse};

fn header(lines: &[&str]) -> Vec<u8> {
    let mut h = String::from("%%BEGINHEADER\n");
    for l in lines {
        h.push_str(l);
        h.push('\n');
    }
    h.push_str("%%ENDHEADER\n");
    h.into_bytes()
}

#[test]
fn probe_names_the_first_channel() {
    let f = header(&["% Probe: \t0"]);
    assert_eq!(probe_offset(&parse(&f).unwrap().0), Ok(0));
    let f = header(&["% Probe: 1"]);
    assert_eq!(probe_offset(&parse(&f).unwrap().0), Ok(4));
    let f = header(&["% Probe: 2"]);
    assert_eq!(probe_offset(&parse(&f).unwrap().0), Err(ConfigError::UnknownProbe { probe: b"2".to_vec() }));
    let f = header(&["% Other: 0"]);
    assert_eq!(probe_offset(&parse(&f).unwrap().0), Err(ConfigError::MissingProbe));
}

#[test]
fn gain_keys_name_the_channel() {
    assert_eq!(gain_key_bytes(0), b"channel 0 ampgain".to_vec());
    assert_eq!(gain_key_bytes(7), b"channel 7 ampgain".to_vec());
}

#[test]
fn gains_come_from_the_probe_channels() {
    let f = header(&[
        "% Probe: 1",
        "% channel 0 ampgain: 1",
        "% channel 4 ampgain: 40",
        "% channel 5 ampgain: 50",
        "% channel 6 ampgain: 60",
        "% channel 7 ampgain: 70",
    ]);
    let m = parse(&f).unwrap().0;
    assert_eq!(gain_texts(&m), Ok(vec![&b"40"[..], &b"50"[..], &b"60"[..], &b"70"[..]]));
    let f = header(&["% Probe: 0", "% channel 0 ampgain: 1", "% channel 1 ampgain: 2"]);
    let m = parse(&f).unwrap().0;
    assert_eq!(gain_texts(&m), Err(ConfigError::MissingOrInvalidGain { channel: 2 }));
}

#[test]
fn input_format_from_flag_or_extension() {
    assert_eq!(input_format(Some(InputFormat::Ad), Some("xyz")), Ok(InputFormat::Ad));
    assert_eq!(input_format(None, Some("tt")), Ok(InputFormat::Ad));
    assert_eq!(input_format(None, None), Err(UsageError::NoInputFormat));
    assert_eq!(input_format(None, Some("pos")), Err(UsageError::UnknownExtension { ext: "pos".to_string() }));
}

#[test]
fn reads_a_spike_file() {
    let mut f = header(&[
        "% Probe: 0",
        "% channel 0 ampgain: 10",
        "% channel 1 ampgain: 11",
        "% channel 2 ampgain: 12",
        "% channel 3 ampgain: 13",
    ]);
    f.extend_from_slice(&20_000u32.to_le_bytes());
    for i in 0..128i16 {
        f.extend_from_slice(&(i - 1).to_le_bytes());
    }
    f.extend_from_slice(&[1, 2]);
    let sf = read_spike_file(&f).unwrap();
    assert_eq!(sf.first_channel, 0);
    assert_eq!(sf.gain_texts, vec![&b"10"[..], &b"11"[..], &b"12"[..], &b"13"[..]]);
    assert_eq!(sf.spikes.len(), 1);
    assert_eq!(sf.spikes[0].time, 20_000);
    assert_eq!(sf.spikes[0].waveforms[0][0], -1);
    assert_eq!(sf.spikes[0].waveforms[1][0], 0);
    assert_eq!(sf.spikes[0].waveforms[3][31], 126);
}

#[test]
fn spike_file_errors() {
    assert!(matches!(read_spike_file(b"no header"), Err(FileError::Header(HeaderError::ParseError { .. }))));
    let f = header(&["% Other: 3"]);
    assert_eq!(read_spike_file(&f).err(), Some(FileError::Config(ConfigError::MissingProbe)));
    let f = header(&["% Probe: 1", "% channel 4 ampgain: 1"]);
    assert_eq!(
        read_spike_file(&f).err(),
        Some(FileError::Config(ConfigError::MissingOrInvalidGain { channel: 5 }))
    );
    let f = header(&["% Probe: 3"]);
    assert_eq!(read_spike_file(&f).err(), Some(FileError::Config(ConfigError::UnknownProbe { probe: b"3".to_vec() })));
}

#[test]
fn reads_a_position_file() {
    let mut f = header(&["% File type: Binary"]);
    f.extend_from_slice(&[1, 0, 0, 0, 2, 0, 1, 0, 8, 0, 3, 0]);
    let ps = read_position_file(&f).unwrap();
    assert_eq!(ps.len(), 1);
    assert_eq!(ps[0].time, 1);
    assert_eq!(ps[0].diode_front, (2, 1));
    assert_eq!(ps[0].diode_back, (8, 3));
}

#[test]
fn parses_raw_payloads() {
    let (rest, ps) = parse_p(&[16, 39, 0, 0, 254, 255, 4, 0, 6, 0, 8, 0, 1]);
    assert_eq!(rest, &[1u8][..]);
    assert_eq!(ps.len(), 1);
    assert_eq!(ps[0].time, 10_000);
    assert_eq!(ps[0].diode_front, (-2, 4));
    assert_eq!(ps[0].diode_back, (6, 8));
    let mut b = 7u32.to_le_bytes().to_vec();
    for i in 0..128i16 {
        b.extend_from_slice(&(i * 2).to_le_bytes());
    }
    let (rest, ss) = parse_spikes(&b);
    assert_eq!(rest, &b""[..]);
    assert_eq!(ss.len(), 1);
    assert_eq!(ss[0].time, 7);
    assert_eq!(ss[0].waveforms[2][1], 12);
    assert_eq!(parse_spikes(&b[..259]), (&b[..259], vec![]));
}
