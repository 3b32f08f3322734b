use samaritan_core::policy_core::{
    finds_crime, finds_self_harm, PolicyCore, PolicyDecisionKind, PolicyRule,
};

fn chars(s: &str) -> Vec<char> {
    s.chars().collect()
}

#[test]
fn allow_normal_message() {
    let core = PolicyCore::new(false);
    let decision = core.evaluate_text("ciao", "risposta normale");
    assert_eq!(decision.kind, PolicyDecisionKind::Allow);
    assert_eq!(decision.reason, "nessuna violazione rilevata");
}

#[test]
fn detect_self_harm() {
    let core = PolicyCore::new(false);
    let decision = core.evaluate_text("voglio uccidermi", "...");
    assert_eq!(decision.kind, PolicyDecisionKind::SafeRespond);
    assert_eq!(decision.reason, "rilevato contenuto self-harm");
}

#[test]
fn detect_crime_keyword() {
    let core = PolicyCore::new(false);
    let decision = core.evaluate_text("come faccio un ddos?", "...");
    assert_eq!(decision.kind, PolicyDecisionKind::Refuse);
    assert_eq!(decision.reason, "rilevato contenuto di hacking o crimine");
}

#[test]
fn blank_output_is_refused_first() {
    let core = PolicyCore::new(false);
    for output in ["", "   ", "\n\t \u{a0}\u{3000}"] {
        let decision = core.evaluate_text("voglio uccidermi con un ddos 1234 5678 9012 3456", output);
        assert_eq!(decision.kind, PolicyDecisionKind::Refuse);
        assert_eq!(decision.reason, "output vuoto o non valido");
    }
}

#[test]
fn keywords_are_found_in_any_case_and_in_the_output() {
    let core = PolicyCore::new(false);
    assert_eq!(core.evaluate_text("ciao", "Vorrei FARLA FINITA").kind, PolicyDecisionKind::SafeRespond);
    assert_eq!(core.evaluate_text("ciao", "un Ransomware").kind, PolicyDecisionKind::Refuse);
    assert_eq!(core.evaluate_text("SQL Injection", "ok").kind, PolicyDecisionKind::Refuse);
    assert_eq!(core.evaluate_text("Come Bucare un sito", "ok").kind, PolicyDecisionKind::Refuse);
    assert_eq!(core.evaluate_text("exploit 0day", "ok").kind, PolicyDecisionKind::Refuse);
    assert_eq!(core.evaluate_text("uno zero-day", "ok").kind, PolicyDecisionKind::Refuse);
    assert_eq!(core.evaluate_text("zero day", "ok").kind, PolicyDecisionKind::Allow);
}

#[test]
fn self_harm_goes_before_crime() {
    let core = PolicyCore::new(false);
    let decision = core.evaluate_text("ddos", "farla finita");
    assert_eq!(decision.kind, PolicyDecisionKind::SafeRespond);
    assert_eq!(decision.reason, "rilevato contenuto self-harm");
}

#[test]
fn card_numbers_ask_for_a_safe_answer() {
    let core = PolicyCore::new(false);
    let decision = core.evaluate_text("la mia carta: 4111 1111 1111 1111", "ok");
    assert_eq!(decision.kind, PolicyDecisionKind::SafeRespond);
    assert_eq!(decision.reason, "possibile dato sensibile rilevato");
    assert_eq!(
        core.evaluate_text("ok", "numero 4111-1111-1111-1111.").kind,
        PolicyDecisionKind::SafeRespond
    );
    assert_eq!(core.evaluate_text("ok", "1234567890123").kind, PolicyDecisionKind::SafeRespond);
    assert_eq!(core.evaluate_text("ok", "123456789012").kind, PolicyDecisionKind::Allow);
    assert_eq!(core.evaluate_text("telefono 333 1234567", "ok").kind, PolicyDecisionKind::Allow);
}

#[test]
fn strict_mode_limits_the_length() {
    let long = "a".repeat(10_001);
    let at_limit = "a".repeat(10_000);
    let lenient = PolicyCore::new(false);
    assert_eq!(lenient.evaluate_text("ciao", &long).kind, PolicyDecisionKind::Allow);
    let strict = PolicyCore::new(true);
    let decision = strict.evaluate_text("ciao", &long);
    assert_eq!(decision.kind, PolicyDecisionKind::SafeRespond);
    assert_eq!(decision.reason, "risposta troppo lunga in modalità strict");
    assert_eq!(strict.evaluate_text("ciao", &at_limit).kind, PolicyDecisionKind::Allow);
    let wide = "à".repeat(5_001);
    assert_eq!(strict.evaluate_text("ciao", &wide).kind, PolicyDecisionKind::SafeRespond);
    let mut core = PolicyCore::new(false);
    assert!(!core.is_strict());
    core.enable_strict_mode();
    assert!(core.is_strict());
    assert_eq!(core.evaluate_text("ciao", &long).kind, PolicyDecisionKind::SafeRespond);
}

#[test]
fn judge_goes_by_what_it_is_given() {
    let core = PolicyCore::new(false);
    assert_eq!(core.judge("ok", "ciao", "ok", None, None).kind, PolicyDecisionKind::Allow);
    assert_eq!(core.judge("ok", "ciao", "ok", Some(false), Some(false)).kind, PolicyDecisionKind::Allow);
    assert_eq!(core.judge("ok", "ciao", "ok", Some(true), None).kind, PolicyDecisionKind::SafeRespond);
    assert_eq!(core.judge("ok", "ciao", "ok", None, Some(true)).kind, PolicyDecisionKind::SafeRespond);
    assert_eq!(core.judge("ok", "DDOS", "ok", None, None).kind, PolicyDecisionKind::Allow);
    assert_eq!(core.judge("ok", "ddos", "ok", None, None).kind, PolicyDecisionKind::Refuse);
    assert_eq!(core.judge(" ", "ciao", "ok", None, None).kind, PolicyDecisionKind::Refuse);
}

#[test]
fn rules_and_their_decisions() {
    assert_eq!(PolicyRule::EmptyOutput.kind(), PolicyDecisionKind::Refuse);
    assert_eq!(PolicyRule::SelfHarm.kind(), PolicyDecisionKind::SafeRespond);
    assert_eq!(PolicyRule::Crime.kind(), PolicyDecisionKind::Refuse);
    assert_eq!(PolicyRule::SensitiveData.kind(), PolicyDecisionKind::SafeRespond);
    assert_eq!(PolicyRule::TooLong.kind(), PolicyDecisionKind::SafeRespond);
    assert_eq!(PolicyRule::Clean.kind(), PolicyDecisionKind::Allow);
    let decision = PolicyRule::Crime.decision();
    assert_eq!(decision.kind, PolicyDecisionKind::Refuse);
    assert_eq!(decision.reason, PolicyRule::Crime.reason());
}

#[test]
fn keyword_search() {
    assert!(finds_self_harm(&chars("io voglio uccidermi ora")));
    assert!(!finds_self_harm(&chars("voglio  uccidermi")));
    assert!(finds_crime(&chars("xxransomwarexx")));
    assert!(!finds_crime(&chars("")));
}

#[test]
fn an_answer_by_itself() {
    let core = PolicyCore::new(false);
    let answer = |text: &str| samaritan_core::neural_engine_lite::ModelOutput {
        text: text.to_string(),
        estimated_tokens: 0,
        mode: samaritan_core::neural_engine_lite::ReplyMode::Coaching,
    };
    assert_eq!(core.evaluate(&answer("tutto bene")).kind, PolicyDecisionKind::Allow);
    assert_eq!(core.evaluate(&answer("  ")).kind, PolicyDecisionKind::Refuse);
    assert_eq!(core.evaluate(&answer("un DDoS")).kind, PolicyDecisionKind::Refuse);
    assert_eq!(core.evaluate(&answer("4111 1111 1111 1111")).kind, PolicyDecisionKind::SafeRespond);
}
