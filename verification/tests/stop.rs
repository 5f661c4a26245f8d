use llguidance_wasm::stop::StopReason;

#[test]
fn four_reasons_are_terminal() {
    assert!(StopReason::EndOfSentence.terminal());
    assert!(StopReason::NoExtension.terminal());
    assert!(StopReason::MaxTokensTotal.terminal());
    assert!(StopReason::NoExtensionBias.terminal());
}

#[test]
fn other_reasons_are_not_terminal() {
    assert!(!StopReason::NotStopped.terminal());
    assert!(!StopReason::MaxTokensParser.terminal());
    assert!(!StopReason::InternalError.terminal());
    assert!(!StopReason::LexerTooComplex.terminal());
    assert!(!StopReason::ParserTooComplex.terminal());
    assert!(!StopReason::Cancelled.terminal());
}

#[test]
fn names_are_the_variant_tags() {
    assert_eq!(StopReason::NotStopped.name(), "NotStopped");
    assert_eq!(StopReason::MaxTokensTotal.name(), "MaxTokensTotal");
    assert_eq!(StopReason::MaxTokensParser.name(), "MaxTokensParser");
    assert_eq!(StopReason::NoExtension.name(), "NoExtension");
    assert_eq!(StopReason::NoExtensionBias.name(), "NoExtensionBias");
    assert_eq!(StopReason::EndOfSentence.name(), "EndOfSentence");
    assert_eq!(StopReason::InternalError.name(), "InternalError");
    assert_eq!(StopReason::LexerTooComplex.name(), "LexerTooComplex");
    assert_eq!(StopReason::ParserTooComplex.name(), "ParserTooComplex");
    assert_eq!(StopReason::Cancelled.name(), "Cancelled");
}
