use verbalix::ai_readiness::{
    evaluate_ai_readiness, readiness_notice,
    readiness_refusal, refresh_failure_prompts_login, refusal_prompts_login, AiReadinessStatus,
};
use verbalix::error::{error_code, transform_failure_message, VerbalixError};
use verbalix::remote_preferences::{first_row, RemotePreferences};
use verbalix::session::{
    data_answer, keychain_delete, keychain_read, keychain_write, require_session, session_answer,
    write_answer, AccountAnswer, KeychainAnswer, StoredSession,
};
use verbalix::settings::normalized_shortcut;
use verbalix::transform::{check_transform_response, send_failure, token_usable, TransformResult};
use verbalix::ids::profile_id;
use verbalix::settings::{without_voice_profile, AppSettings, LengthPreference, TonePreference};

#[test]
fn shortcut_option_becomes_alt() {
    assert_eq!(normalized_shortcut("Option+Space"), "Alt+Space");
    assert_eq!(normalized_shortcut("Cmd+Option+Option"), "Cmd+Alt+Alt");
    assert_eq!(normalized_shortcut("Ctrl+Shift+K"), "Ctrl+Shift+K");
    assert_eq!(normalized_shortcut(""), "");
}

#[test]
fn readiness_gates_a_transformation() {
    assert_eq!(readiness_refusal(AiReadinessStatus::Ready), None);
    assert_eq!(
        readiness_refusal(AiReadinessStatus::LoginRequired),
        Some(VerbalixError::Unauthenticated)
    );
    assert_eq!(
        readiness_refusal(AiReadinessStatus::ProviderNotConfigured),
        Some(VerbalixError::ProviderNotConfigured)
    );
    assert!(refusal_prompts_login(AiReadinessStatus::LoginRequired, true));
    assert!(!refusal_prompts_login(AiReadinessStatus::LoginRequired, false));
    assert!(!refusal_prompts_login(AiReadinessStatus::ProviderNotConfigured, true));
    assert!(refresh_failure_prompts_login(&VerbalixError::Unauthenticated, true));
    assert!(!refresh_failure_prompts_login(&VerbalixError::ProviderTimeout, true));
    assert!(!refresh_failure_prompts_login(&VerbalixError::Unauthenticated, false));
}

fn result(id: u128, text: &str) -> TransformResult {
    TransformResult {
        request_id: id,
        source_language: "pt".to_owned(),
        target_language: Some("en".to_owned()),
        result: text.to_owned(),
    }
}

#[test]
fn transform_answers_are_checked() {
    assert!(!token_usable("  "));
    assert!(token_usable("abc"));
    assert_eq!(send_failure(true), VerbalixError::ProviderTimeout);
    assert_eq!(send_failure(false), VerbalixError::ProviderRejected);
    assert_eq!(
        check_transform_response(1, 401, Some(result(1, "x"))).unwrap_err(),
        VerbalixError::Unauthenticated
    );
    assert_eq!(
        check_transform_response(1, 500, Some(result(1, "x"))).unwrap_err(),
        VerbalixError::ProviderRejected
    );
    assert_eq!(
        check_transform_response(1, 200, None).unwrap_err(),
        VerbalixError::InvalidResponse
    );
    assert_eq!(
        check_transform_response(1, 200, Some(result(2, "x"))).unwrap_err(),
        VerbalixError::InvalidResponse
    );
    assert_eq!(
        check_transform_response(1, 200, Some(result(1, " \n"))).unwrap_err(),
        VerbalixError::InvalidResponse
    );
    let ok = check_transform_response(1, 201, Some(result(1, "feito"))).unwrap();
    assert_eq!(ok.result, "feito");
}

#[test]
fn keychain_answers_map_to_session_results() {
    assert_eq!(keychain_read(KeychainAnswer::Done("tok".to_owned())), Ok(Some("tok".to_owned())));
    assert_eq!(keychain_read(KeychainAnswer::NoEntry), Ok(None));
    assert_eq!(keychain_read(KeychainAnswer::Failed), Err(VerbalixError::LocalFailure));
    assert_eq!(keychain_write(KeychainAnswer::Done(())), Ok(()));
    assert_eq!(keychain_write(KeychainAnswer::NoEntry), Err(VerbalixError::LocalFailure));
    assert_eq!(keychain_delete(KeychainAnswer::NoEntry), Ok(()));
    assert_eq!(keychain_delete(KeychainAnswer::Failed), Err(VerbalixError::LocalFailure));
    assert_eq!(require_session(Ok(None)).unwrap_err(), VerbalixError::Unauthenticated);
    assert_eq!(require_session(Err(VerbalixError::LocalFailure)).unwrap_err(), VerbalixError::LocalFailure);
    let s = require_session(Ok(Some(StoredSession {
        access_token: "a".to_owned(),
        refresh_token: "r".to_owned(),
    })))
    .unwrap();
    assert_eq!(s.access_token, "a");
}

#[test]
fn error_codes_and_messages() {
    assert_eq!(error_code(&VerbalixError::PermissionDenied), "permission_denied");
    assert_eq!(error_code(&VerbalixError::VirtualMicSelectedAsInput), "virtual_mic_selected_as_input");
    assert_eq!(error_code(&VerbalixError::TextTooLong), "text_too_long");
    assert_eq!(
        transform_failure_message(&VerbalixError::TextTooLong),
        "A seleção ultrapassa o limite de 12.000 caracteres."
    );
    assert_eq!(
        transform_failure_message(&VerbalixError::StaleSelection),
        "A seleção mudou. Selecione o texto novamente."
    );
    assert_eq!(
        transform_failure_message(&VerbalixError::ProviderTimeout),
        "O serviço de IA está indisponível. Tente novamente ou abra o Verbalix."
    );
}

#[test]
fn profile_ids_parse_or_fail_with_the_given_error() {
    assert_eq!(
        profile_id("00000000-0000-0000-0000-00000000002a", VerbalixError::LocalFailure),
        Ok(42)
    );
    assert_eq!(
        profile_id("not-a-uuid", VerbalixError::VoiceProfileMissing),
        Err(VerbalixError::VoiceProfileMissing)
    );
}

#[test]
fn deleting_the_used_voice_profile_clears_it_from_settings() {
    let settings = AppSettings {
        formality: 3,
        length: LengthPreference::Balanced,
        tone: TonePreference::Neutral,
        confirm_before_replace: true,
        history_enabled: true,
        automatic_toolbar: true,
        shortcut: "Cmd+Shift+V".to_owned(),
        voice_profile_id: Some(7),
        target_language: "en".to_owned(),
    };
    assert!(without_voice_profile(&settings, 8).is_none());
    let cleared = without_voice_profile(&settings, 7).unwrap();
    assert_eq!(cleared.voice_profile_id, None);
    assert_eq!(cleared.shortcut, "Cmd+Shift+V");
}

#[test]
fn account_answers_map_to_results() {
    assert_eq!(session_answer::<u8>(AccountAnswer::Unreachable), Err(VerbalixError::ProviderRejected));
    assert_eq!(session_answer::<u8>(AccountAnswer::Rejected { status: 500 }), Err(VerbalixError::Unauthenticated));
    assert_eq!(session_answer::<u8>(AccountAnswer::Unreadable), Err(VerbalixError::InvalidResponse));
    assert_eq!(session_answer(AccountAnswer::Delivered(3u8)), Ok(3));
    assert_eq!(data_answer::<u8>(AccountAnswer::Rejected { status: 401 }), Err(VerbalixError::Unauthenticated));
    assert_eq!(data_answer::<u8>(AccountAnswer::Rejected { status: 500 }), Err(VerbalixError::ProviderRejected));
    assert_eq!(data_answer(AccountAnswer::Delivered(4u8)), Ok(4));
    assert_eq!(write_answer(true, 204), Ok(()));
    assert_eq!(write_answer(true, 409), Err(VerbalixError::ProviderRejected));
    assert_eq!(write_answer(false, 200), Err(VerbalixError::ProviderRejected));
}

#[test]
fn only_the_first_preferences_row_counts() {
    use_first_row();
}

fn use_first_row() {
    let row = |f: u8| RemotePreferences {
        formality: f,
        length: LengthPreference::Concise,
        tone: TonePreference::Neutral,
        history_enabled: false,
        updated_at: None,
    };
    assert!(first_row(Vec::new()).is_none());
    assert_eq!(first_row(vec![row(1), row(2)]).unwrap().formality, 1);
}

#[test]
fn only_a_missing_readiness_is_noticed() {
    assert_eq!(readiness_notice(&evaluate_ai_readiness(true, true)), None);
    assert_eq!(
        readiness_notice(&evaluate_ai_readiness(true, false)),
        Some("Entre no Verbalix para usar tradução e aprimoramento.")
    );
    assert_eq!(
        readiness_notice(&evaluate_ai_readiness(false, true)),
        Some("Este build não contém a configuração pública do backend.")
    );
}

#[test]
fn profile_ids_take_every_uuid_spelling() {
    let id = 0x0123_4567_89ab_cdef_0123_4567_89ab_cdef_u128;
    for text in [
        "0123456789abcdef0123456789abcdef",
        "0123456789ABCDEF0123456789ABCDEF",
        "01234567-89ab-cdef-0123-456789abcdef",
        "{01234567-89ab-cdef-0123-456789abcdef}",
        "URN:uuid:01234567-89AB-cdef-0123-456789abcdef",
    ] {
        assert_eq!(profile_id(text, VerbalixError::LocalFailure), Ok(id));
    }
    for text in [
        "01234567-89ab-cdef-0123-456789abcdeg",
        "01234567+89ab-cdef-0123-456789abcdef",
        "[01234567-89ab-cdef-0123-456789abcdef]",
        "0123456789abcdef0123456789abcde",
    ] {
        assert_eq!(profile_id(text, VerbalixError::LocalFailure), Err(VerbalixError::LocalFailure));
    }
}
