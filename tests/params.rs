use xcrust::cache::{ParamCache, cache_value};
use xcrust::format::FormatType;
use xcrust::params::{Param, ParamRule, output_type, param_named, parse_param, rule_of};

#[test]
fn it_parses_t_px() {
    assert_eq!(parse_param("t_px"), Some(Param::T_PX));
}

#[test]
fn it_fails_parsing_nonsense() {
    assert_eq!(parse_param("t_nonsense"), None);
}

#[test]
fn parameter_names_ignore_case() {
    assert_eq!(parse_param("T_PX"), Some(Param::T_PX));
    assert_eq!(parse_param("T_px"), parse_param("t_PX"));
    assert_eq!(parse_param("Time"), Some(Param::TIME));
    assert_eq!(parse_param("pos_y"), Some(Param::POS_Y));
    assert_eq!(parse_param("t_h4"), Some(Param::T_H4));
    assert_eq!(parse_param(""), None);
}

#[test]
fn param_named_takes_lower_case_names_only() {
    assert_eq!(param_named("px"), Some(Param::PX));
    assert_eq!(param_named("PX"), None);
}

#[test]
fn every_code_and_name_leads_back() {
    let mut count = 0;
    for code in 0..140 {
        if let Some(p) = Param::from_code(code) {
            count += 1;
            assert_eq!(p.code(), code);
            assert_eq!(param_named(p.name()), Some(p));
        }
    }
    assert_eq!(count, 117);
    assert_eq!(Param::T_PX.code(), 70);
    assert_eq!(Param::from_code(57), None);
    assert_eq!(Param::TIME.name(), "time");
}

#[test]
fn output_types_follow_the_table() {
    assert_eq!(output_type(&Param::T_PX), FormatType::ShortT);
    assert_eq!(output_type(&Param::POS_X), FormatType::ShortT);
    assert_eq!(output_type(&Param::T_TPB), FormatType::ShortT);
    assert_eq!(output_type(&Param::TIME), FormatType::DoubleT);
    assert_eq!(output_type(&Param::TIMESTAMP), FormatType::ULongT);
    assert_eq!(output_type(&Param::PX), FormatType::FloatT);
    assert_eq!(output_type(&Param::T_H1), FormatType::FloatT);
}

#[test]
fn only_some_parameters_have_rules() {
    assert_eq!(rule_of(&Param::TIME), Some(ParamRule::Time));
    assert_eq!(rule_of(&Param::POS_X), Some(ParamRule::PosX));
    assert_eq!(rule_of(&Param::POS_Y), Some(ParamRule::PosY));
    assert_eq!(rule_of(&Param::T_PA), Some(ParamRule::TetrodeAmplitude { channel: 2 }));
    assert_eq!(rule_of(&Param::T_PB), Some(ParamRule::TetrodeAmplitude { channel: 3 }));
    assert_eq!(rule_of(&Param::T_VX), None);
}

#[test]
fn it_caches() {
    let mut cache = ParamCache::new();
    let get_int = || 3i32;
    let x = cache_value("x", get_int, &mut cache);
    let y = cache_value("x", get_int, &mut cache);
    let n = cache.get("x").map(|(n, _)| n);
    assert_eq!(x, 3);
    assert_eq!(y, x);
    assert_eq!(n, Some(1));
}

#[test]
fn a_fresh_cache_has_no_hits() {
    let mut cache: ParamCache<i32> = ParamCache::new();
    assert_eq!(cache.get("x"), None);
    assert_eq!(cache_value("x", || 7, &mut cache), 7);
    assert_eq!(cache.get("x"), Some((0, 7)));
    assert_eq!(cache_value("x", || 8, &mut cache), 7);
    assert_eq!(cache_value("x", || 9, &mut cache), 7);
    assert_eq!(cache.get("x"), Some((2, 7)));
    assert_eq!(cache_value("y", || 5, &mut cache), 5);
    assert_eq!(cache.get("y"), Some((0, 5)));
    assert_eq!(cache.get("x"), Some((2, 7)));
}
