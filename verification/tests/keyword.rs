use lib::lexer::kw::Keyword;

#[test]
fn module_is_spelled_as_in_source() {
    assert_eq!(Keyword::Module.to_string(), "module");
}

#[test]
fn interface_is_spelled_as_in_source() {
    assert_eq!(Keyword::Interface.to_string(), "interface");
}

#[test]
fn other_keywords_show_variant_name() {
    assert_eq!(Keyword::And.to_string(), "And unimp");
    assert_eq!(Keyword::PulsestyleOndetect.to_string(), "PulsestyleOndetect unimp");
    assert_eq!(Keyword::Unique0.to_string(), "Unique0 unimp");
    assert_eq!(Keyword::Soft.to_string(), "Soft unimp");
}

#[test]
fn display_matches_debug_name() {
    for kw in [Keyword::Unit, Keyword::Parameter, Keyword::Endmodule, Keyword::SUntilWith] {
        assert_eq!(kw.to_string(), format!("{:?} unimp", kw));
        assert_eq!(kw.variant_name(), format!("{:?}", kw));
    }
}

#[test]
fn law_display_injective_on_samples() {
    let kws = [
        Keyword::Module, Keyword::Interface, Keyword::And, Keyword::Not, Keyword::For, Keyword::Xor,
        Keyword::Var, Keyword::Let, Keyword::Unique, Keyword::Unique0, Keyword::SAlways, Keyword::Until,
        Keyword::UntilWith, Keyword::SUntil, Keyword::SUntilWith, Keyword::Endinterface,
    ];
    for (i, a) in kws.iter().enumerate() {
        for (j, b) in kws.iter().enumerate() {
            assert_eq!(i == j, a.to_string() == b.to_string());
        }
    }
}
