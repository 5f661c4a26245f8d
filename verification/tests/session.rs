use llguidance_wasm::error::ErrorKind;
use llguidance_wasm::session::LLGuidanceParser;

fn session(grammar: &str) -> LLGuidanceParser {
    LLGuidanceParser::new(grammar, "{}").unwrap()
}

fn feed(session: &mut LLGuidanceParser, text: &str) {
    for byte in text.bytes() {
        session.advance(byte as u32).unwrap();
    }
}

#[test]
fn vocabulary_is_one_token_per_byte_and_six_special() {
    let s = session("{\"grammars\":[{\"rx\":\"a\"}]}");
    assert_eq!(s.vocab_size(), 262);
}

#[test]
fn mask_has_vocabulary_length_and_agrees_with_single_queries() {
    let mut s = session("{\"grammars\":[{\"rx\":\"ab+c\"}]}");
    let mask = s.get_token_mask().unwrap();
    assert_eq!(mask.len(), s.vocab_size());
    for token in 0..s.vocab_size() {
        let allowed = s.is_token_allowed(token as u32).unwrap();
        assert_eq!(mask[token] == 1, allowed, "token {}", token);
        assert!(mask[token] == 0 || mask[token] == 1);
    }
}

#[test]
fn initial_mask_of_a_pattern_admits_its_first_byte_only() {
    let mut s = session("{\"grammars\":[{\"rx\":\"ab+c\"}]}");
    let mask = s.get_token_mask().unwrap();
    let mut expected = vec![0u8; 262];
    expected[b'a' as usize] = 1;
    assert_eq!(mask, expected);
    assert!(s.is_token_allowed(b'a' as u32).unwrap());
    assert!(!s.is_token_allowed(b'b' as u32).unwrap());
}

#[test]
fn mask_query_is_idempotent() {
    let mut s = session("{\"grammars\":[{\"rx\":\"ab+c\"}]}");
    let first = s.get_token_mask().unwrap();
    let second = s.get_token_mask().unwrap();
    assert_eq!(first, second);
    feed(&mut s, "ab");
    let third = s.get_token_mask().unwrap();
    let fourth = s.get_token_mask().unwrap();
    assert_eq!(third, fourth);
    assert_ne!(first, third);
}

#[test]
fn token_beyond_the_vocabulary_is_not_allowed() {
    let mut s = session("{\"grammars\":[{\"rx\":\"ab+c\"}]}");
    assert!(!s.is_token_allowed(262).unwrap());
    assert!(!s.is_token_allowed(100_000).unwrap());
    assert!(!s.is_token_allowed(u32::MAX).unwrap());
}

#[test]
fn advancing_with_an_admitted_token_succeeds_and_moves_on() {
    let mut s = session("{\"grammars\":[{\"rx\":\"ab+c\"}]}");
    let before = s.get_token_mask().unwrap();
    assert_eq!(before[b'a' as usize], 1);
    s.advance(b'a' as u32).unwrap();
    let after = s.get_token_mask().unwrap();
    assert_ne!(before, after);
    let mut expected = vec![0u8; 262];
    expected[b'b' as usize] = 1;
    assert_eq!(after, expected);
}

#[test]
fn advancing_with_a_refused_token_fails_and_changes_nothing() {
    let mut s = session("{\"grammars\":[{\"rx\":\"ab+c\"}]}");
    s.advance(b'a' as u32).unwrap();
    let stop = s.stop_reason();
    let mask = s.get_token_mask().unwrap();
    assert_eq!(mask[b'x' as usize], 0);
    let error = s.advance(b'x' as u32).unwrap_err();
    assert_eq!(error.kind, ErrorKind::Advance);
    assert!(error.message.starts_with("Failed to consume token: "));
    assert!(error.message.len() > "Failed to consume token: ".len());
    assert_eq!(s.stop_reason(), stop);
    assert_eq!(s.stop_reason(), "NotStopped");
    assert!(!s.is_complete());
    assert_eq!(s.get_token_mask().unwrap(), mask);
    s.advance(b'b' as u32).unwrap();
    s.advance(b'c' as u32).unwrap();
    assert!(s.is_complete());
}

#[test]
fn advancing_with_a_token_beyond_the_vocabulary_fails_and_changes_nothing() {
    let mut s = session("{\"grammars\":[{\"rx\":\"ab+c\"}]}");
    let mask = s.get_token_mask().unwrap();
    let error = s.advance(5000).unwrap_err();
    assert_eq!(error.kind, ErrorKind::Advance);
    assert_eq!(error.message, "Failed to consume token: token id out of range");
    let error = s.advance(262).unwrap_err();
    assert_eq!(error.kind, ErrorKind::Advance);
    let error = s.advance(u32::MAX).unwrap_err();
    assert_eq!(error.kind, ErrorKind::Advance);
    assert_eq!(s.stop_reason(), "NotStopped");
    assert_eq!(s.get_token_mask().unwrap(), mask);
    s.advance(b'a' as u32).unwrap();
}

#[test]
fn fresh_session_is_not_stopped() {
    let s = session("{\"grammars\":[{\"lark\":\"start: /ab+c/\"}]}");
    assert_eq!(s.stop_reason(), "NotStopped");
    assert!(!s.is_complete());
}

#[test]
fn pattern_and_anchored_grammar_text_give_the_same_masks() {
    let mut by_pattern = session("{\"grammars\":[{\"rx\":\"ab+c\"}]}");
    let mut by_text = session("{\"grammars\":[{\"lark\":\"start: /ab+c/\"}]}");
    assert_eq!(by_pattern.get_token_mask().unwrap(), by_text.get_token_mask().unwrap());
    let bytes = "abbbc".as_bytes();
    for (i, byte) in bytes.iter().enumerate() {
        by_pattern.advance(*byte as u32).unwrap();
        by_text.advance(*byte as u32).unwrap();
        assert_eq!(by_pattern.stop_reason(), by_text.stop_reason());
        if i + 1 < bytes.len() {
            assert_eq!(by_pattern.get_token_mask().unwrap(), by_text.get_token_mask().unwrap());
        }
    }
    assert_eq!(by_pattern.is_complete(), by_text.is_complete());
    assert!(by_pattern.is_complete());
}

#[test]
fn boolean_schema_completes_after_true() {
    let mut s = session("{\"grammars\":[{\"json_schema\":{\"type\":\"boolean\"}}]}");
    let mask = s.get_token_mask().unwrap();
    let mut expected = vec![0u8; 262];
    expected[b't' as usize] = 1;
    expected[b'f' as usize] = 1;
    assert_eq!(mask, expected);
    assert!(!s.is_complete());
    feed(&mut s, "true");
    assert!(s.is_complete());
    let reason = s.stop_reason();
    assert!(
        reason == "EndOfSentence" || reason == "NoExtension" || reason == "MaxTokensTotal"
            || reason == "NoExtensionBias"
    );
}

#[test]
fn boolean_schema_completes_after_false() {
    let mut s = session("{\"grammars\":[{\"json_schema\":{\"type\":\"boolean\"}}]}");
    feed(&mut s, "false");
    assert!(s.is_complete());
    assert_eq!(s.stop_reason(), "NoExtension");
}

#[test]
fn complete_session_refuses_queries_and_tokens_and_stays_complete() {
    let mut s = session("{\"grammars\":[{\"rx\":\"ab+c\"}]}");
    feed(&mut s, "abc");
    assert!(s.is_complete());
    let stop = s.stop_reason();
    let error = s.get_token_mask().unwrap_err();
    assert_eq!(error.kind, ErrorKind::Mask);
    assert!(error.message.starts_with("Failed to compute mask: "));
    assert!(error.message.len() > "Failed to compute mask: ".len());
    let error = s.is_token_allowed(b'a' as u32).unwrap_err();
    assert_eq!(error.kind, ErrorKind::Mask);
    let error = s.advance(b'a' as u32).unwrap_err();
    assert_eq!(error.kind, ErrorKind::Advance);
    assert!(s.is_complete());
    assert_eq!(s.stop_reason(), stop);
}

#[test]
fn empty_description_without_native_reading_fails_normalization() {
    let error = LLGuidanceParser::new("{\"grammars\":[],\"max_tokens\":\"many\"}", "{}")
        .err()
        .unwrap();
    assert_eq!(error.kind, ErrorKind::Normalization);
    assert!(error.message.starts_with("Failed to parse grammar JSON: "));
}

#[test]
fn text_that_is_no_json_fails_normalization() {
    let error = LLGuidanceParser::new("not json", "{}").err().unwrap();
    assert_eq!(error.kind, ErrorKind::Normalization);
    assert_eq!(
        error.message,
        "Failed to parse grammar JSON: expected ident at line 1 column 2"
    );
}

#[test]
fn rejected_grammar_fails_construction() {
    let error = LLGuidanceParser::new("{\"grammars\":[{\"lark\":\"start: missing_rule\"}]}", "{}")
        .err()
        .unwrap();
    assert_eq!(error.kind, ErrorKind::Construction);
    assert!(error.message.starts_with("Failed to create parser: "));
    assert!(error.message.len() > "Failed to create parser: ".len());
}

#[test]
fn native_document_is_taken_as_it_is() {
    let mut s = session("{\"grammars\":[{\"lark_grammar\":\"start: /xy/\"}]}");
    let mut expected = vec![0u8; 262];
    expected[b'x' as usize] = 1;
    assert_eq!(s.get_token_mask().unwrap(), expected);
}

#[test]
fn only_the_first_variant_counts() {
    let mut s = session("{\"grammars\":[{\"rx\":\"q\"},{\"lark\":\"start: /z/\"}]}");
    let mut expected = vec![0u8; 262];
    expected[b'q' as usize] = 1;
    assert_eq!(s.get_token_mask().unwrap(), expected);
}

#[test]
fn reset_behaves_as_a_fresh_session() {
    let mut s = session("{\"grammars\":[{\"rx\":\"ab+c\"}]}");
    feed(&mut s, "abb");
    s.reset("{\"grammars\":[{\"json_schema\":{\"type\":\"boolean\"}}]}").unwrap();
    let mut fresh = session("{\"grammars\":[{\"json_schema\":{\"type\":\"boolean\"}}]}");
    assert_eq!(s.vocab_size(), fresh.vocab_size());
    assert_eq!(s.stop_reason(), fresh.stop_reason());
    assert_eq!(s.get_token_mask().unwrap(), fresh.get_token_mask().unwrap());
    feed(&mut s, "fals");
    feed(&mut fresh, "fals");
    assert_eq!(s.get_token_mask().unwrap(), fresh.get_token_mask().unwrap());
}

#[test]
fn reset_recovers_a_complete_session() {
    let mut s = session("{\"grammars\":[{\"rx\":\"a\"}]}");
    feed(&mut s, "a");
    assert!(s.is_complete());
    s.reset("{\"grammars\":[{\"rx\":\"a\"}]}").unwrap();
    assert!(!s.is_complete());
    assert!(s.is_token_allowed(b'a' as u32).unwrap());
}

#[test]
fn failed_reset_leaves_the_session_as_it_was() {
    let mut s = session("{\"grammars\":[{\"rx\":\"ab+c\"}]}");
    feed(&mut s, "a");
    let mask = s.get_token_mask().unwrap();
    let error = s.reset("[").unwrap_err();
    assert_eq!(error.kind, ErrorKind::Normalization);
    assert_eq!(s.get_token_mask().unwrap(), mask);
    let error = s.reset("{\"grammars\":[{\"lark\":\"start: missing_rule\"}]}").unwrap_err();
    assert_eq!(error.kind, ErrorKind::Construction);
    assert_eq!(s.get_token_mask().unwrap(), mask);
    assert_eq!(s.stop_reason(), "NotStopped");
}

#[test]
fn token_bound_of_zero_refuses_an_admitted_token() {
    let mut s = session("{\"grammars\":[{\"lark_grammar\":\"start: /a/\"}],\"max_tokens\":0}");
    assert!(s.is_token_allowed(b'a' as u32).unwrap());
    let error = s.advance(b'a' as u32).unwrap_err();
    assert_eq!(error.kind, ErrorKind::Advance);
    assert!(s.is_token_allowed(b'a' as u32).unwrap());
}

#[test]
fn advance_takes_exactly_the_tokens_of_the_mask() {
    let grammar = "{\"grammars\":[{\"rx\":\"a[bc]+d?\"}]}";
    let mut s = session(grammar);
    for prefix in ["", "a", "ab", "abc"] {
        s.reset(grammar).unwrap();
        feed(&mut s, prefix);
        let mask = s.get_token_mask().unwrap();
        for token in 0..mask.len() {
            let taken = s.advance(token as u32).is_ok();
            assert_eq!(taken, mask[token] == 1, "after {:?}, token {}", prefix, token);
            if taken {
                s.reset(grammar).unwrap();
                feed(&mut s, prefix);
            }
            assert_eq!(s.get_token_mask().unwrap(), mask);
        }
    }
}

#[test]
fn session_assembled_of_a_factory_and_a_grammar_starts_ready() {
    let env = llguidance::toktrie::ApproximateTokEnv::single_byte_env();
    let factory = llguidance::ParserFactory::new_simple(&env).unwrap();
    let grammar = llguidance::api::TopLevelGrammar::from_lark("start: /hi/".to_string());
    let mut s = LLGuidanceParser::assemble(factory, grammar).ok().unwrap();
    assert_eq!(s.vocab_size(), 262);
    assert_eq!(s.stop_reason(), "NotStopped");
    let mut expected = vec![0u8; 262];
    expected[b'h' as usize] = 1;
    assert_eq!(s.get_token_mask().unwrap(), expected);
}

#[test]
fn assembling_on_a_rejected_grammar_fails_construction() {
    let env = llguidance::toktrie::ApproximateTokEnv::single_byte_env();
    let factory = llguidance::ParserFactory::new_simple(&env).unwrap();
    let grammar = llguidance::api::TopLevelGrammar::from_lark("start: missing_rule".to_string());
    let error = LLGuidanceParser::assemble(factory, grammar).err().unwrap();
    assert_eq!(error.kind, ErrorKind::Construction);
    assert!(error.message.starts_with("Failed to create parser: "));
}

#[test]
fn vocabulary_size_stays_through_advance_and_reset() {
    let mut s = session("{\"grammars\":[{\"rx\":\"ab+c\"}]}");
    let size = s.vocab_size();
    feed(&mut s, "ab");
    assert_eq!(s.vocab_size(), size);
    s.reset("{\"grammars\":[{\"lark\":\"start: /z/\"}]}").unwrap();
    assert_eq!(s.vocab_size(), size);
    assert!(s.reset("nothing").is_err());
    assert_eq!(s.vocab_size(), size);
}

#[test]
fn end_of_sequence_token_ends_an_open_pattern() {
    let mut s = session("{\"grammars\":[{\"rx\":\"ab*\"}]}");
    feed(&mut s, "ab");
    assert!(!s.is_complete());
    let mask = s.get_token_mask().unwrap();
    assert_eq!(mask[261], 1);
    assert_eq!(mask[b'b' as usize], 1);
    s.advance(261).unwrap();
    assert!(s.is_complete());
    assert_eq!(s.stop_reason(), "EndOfSentence");
}

#[test]
fn progress_is_recorded_token_by_token() {
    let grammar = "{\"grammars\":[{\"rx\":\"ab+c\"}]}";
    let mut stepped = session(grammar);
    let mut taken = String::new();
    for byte in "abbbc".bytes() {
        assert!(stepped.advance(b'z' as u32).is_err());
        stepped.advance(byte as u32).unwrap();
        taken.push(byte as char);
        let mut fresh = session(grammar);
        feed(&mut fresh, &taken);
        assert_eq!(stepped.stop_reason(), fresh.stop_reason());
        assert_eq!(stepped.is_complete(), fresh.is_complete());
        assert_eq!(stepped.get_token_mask().ok(), fresh.get_token_mask().ok(), "after {:?}", taken);
    }
    assert!(stepped.is_complete());
}

#[test]
fn empty_description_that_reads_natively_fails_at_compile() {
    let error = LLGuidanceParser::new("{\"grammars\":[]}", "{}").err().unwrap();
    assert_eq!(error.kind, ErrorKind::Construction);
    assert!(error.message.starts_with("Failed to create parser: "));
    let mut s = session("{\"grammars\":[{\"rx\":\"a\"}]}");
    let error = s.reset("{\"grammars\":[]}").unwrap_err();
    assert_eq!(error.kind, ErrorKind::Construction);
    assert!(s.is_token_allowed(b'a' as u32).unwrap());
}

#[test]
fn reset_fails_where_construction_fails() {
    let documents = [
        "{\"grammars\":[{\"rx\":\"ab+c\"}]}",
        "{\"grammars\":[{\"lark\":\"start: missing_rule\"}]}",
        "{\"grammars\":[],\"max_tokens\":\"many\"}",
        "{\"grammars\":[]}",
        "not json",
        "{\"grammars\":[{\"json_schema\":{\"type\":\"boolean\"}}]}",
    ];
    let mut s = session("{\"grammars\":[{\"rx\":\"a\"}]}");
    for document in documents {
        let constructed = LLGuidanceParser::new(document, "{}");
        let reset = s.reset(document);
        match (constructed, reset) {
            (Ok(_), Ok(())) => {}
            (Err(built), Err(again)) => {
                assert_eq!(built.kind, again.kind, "{}", document);
                assert_eq!(built.message, again.message, "{}", document);
            }
            _ => panic!("construction and reset disagree on {}", document),
        }
    }
}
