//! The application's error type and the stable codes and user messages
//! derived from it.
use vstd::prelude::*;

verus! {

/// Every failure the application reports. Variants carry no content, so no
/// selected text or secret can leak through an error.
#[derive(Clone, Copy, Debug, PartialEq, Eq, Structural)]
pub enum VerbalixError {
    PermissionDenied,
    SelectionUnavailable,
    ProtectedField,
    StaleSelection,
    OperationInProgress,
    TextTooLong,
    Unauthenticated,
    ProviderNotConfigured,
    ProviderTimeout,
    ProviderRejected,
    InvalidResponse,
    MicrophonePermissionDenied,
    AudioCaptureFailed,
    EnrollmentFailed,
    UnsupportedPlatform,
    LocalFailure,
    LiveSessionInactive,
    TargetLanguageUnsupported,
    VoiceProfileMissing,
    AudioPlaybackFailed,
    InterpretationFailed,
    SttFailed,
    TranslationFailed,
    TtsFailed,
    VirtualMicUnavailable,
    VirtualMicSelectedAsInput,
}

/// The stable snake-case code of each error, as diagnostics print it.
pub open spec fn error_code_spec(error: VerbalixError) -> &'static str {
    match error {
        VerbalixError::PermissionDenied => "permission_denied",
        VerbalixError::SelectionUnavailable => "selection_unavailable",
        VerbalixError::ProtectedField => "protected_field",
        VerbalixError::StaleSelection => "stale_selection",
        VerbalixError::OperationInProgress => "operation_in_progress",
        VerbalixError::TextTooLong => "text_too_long",
        VerbalixError::Unauthenticated => "unauthenticated",
        VerbalixError::ProviderNotConfigured => "provider_not_configured",
        VerbalixError::ProviderTimeout => "provider_timeout",
        VerbalixError::ProviderRejected => "provider_rejected",
        VerbalixError::InvalidResponse => "invalid_response",
        VerbalixError::MicrophonePermissionDenied => "microphone_permission_denied",
        VerbalixError::AudioCaptureFailed => "audio_capture_failed",
        VerbalixError::EnrollmentFailed => "enrollment_failed",
        VerbalixError::UnsupportedPlatform => "unsupported_platform",
        VerbalixError::LocalFailure => "local_failure",
        VerbalixError::LiveSessionInactive => "live_session_inactive",
        VerbalixError::TargetLanguageUnsupported => "target_language_unsupported",
        VerbalixError::VoiceProfileMissing => "voice_profile_missing",
        VerbalixError::AudioPlaybackFailed => "audio_playback_failed",
        VerbalixError::InterpretationFailed => "interpretation_failed",
        VerbalixError::SttFailed => "stt_failed",
        VerbalixError::TranslationFailed => "translation_failed",
        VerbalixError::TtsFailed => "tts_failed",
        VerbalixError::VirtualMicUnavailable => "virtual_mic_unavailable",
        VerbalixError::VirtualMicSelectedAsInput => "virtual_mic_selected_as_input",
    }
}

/// The stable code of `error`.
pub fn error_code(error: &VerbalixError) -> (code: &'static str)
    ensures
        code == error_code_spec(*error),
{
    match error {
        VerbalixError::PermissionDenied => "permission_denied",
        VerbalixError::SelectionUnavailable => "selection_unavailable",
        VerbalixError::ProtectedField => "protected_field",
        VerbalixError::StaleSelection => "stale_selection",
        VerbalixError::OperationInProgress => "operation_in_progress",
        VerbalixError::TextTooLong => "text_too_long",
        VerbalixError::Unauthenticated => "unauthenticated",
        VerbalixError::ProviderNotConfigured => "provider_not_configured",
        VerbalixError::ProviderTimeout => "provider_timeout",
        VerbalixError::ProviderRejected => "provider_rejected",
        VerbalixError::InvalidResponse => "invalid_response",
        VerbalixError::MicrophonePermissionDenied => "microphone_permission_denied",
        VerbalixError::AudioCaptureFailed => "audio_capture_failed",
        VerbalixError::EnrollmentFailed => "enrollment_failed",
        VerbalixError::UnsupportedPlatform => "unsupported_platform",
        VerbalixError::LocalFailure => "local_failure",
        VerbalixError::LiveSessionInactive => "live_session_inactive",
        VerbalixError::TargetLanguageUnsupported => "target_language_unsupported",
        VerbalixError::VoiceProfileMissing => "voice_profile_missing",
        VerbalixError::AudioPlaybackFailed => "audio_playback_failed",
        VerbalixError::InterpretationFailed => "interpretation_failed",
        VerbalixError::SttFailed => "stt_failed",
        VerbalixError::TranslationFailed => "translation_failed",
        VerbalixError::TtsFailed => "tts_failed",
        VerbalixError::VirtualMicUnavailable => "virtual_mic_unavailable",
        VerbalixError::VirtualMicSelectedAsInput => "virtual_mic_selected_as_input",
    }
}

/// The message shown next to the selection when a transformation fails.
pub open spec fn transform_failure_message_spec(error: VerbalixError) -> &'static str {
    match error {
        VerbalixError::PermissionDenied => "Permita o Acesso à Acessibilidade para continuar.",
        VerbalixError::SelectionUnavailable | VerbalixError::StaleSelection => {
            "A seleção mudou. Selecione o texto novamente."
        },
        VerbalixError::ProtectedField => "Este campo protegido não pode ser alterado.",
        VerbalixError::OperationInProgress => "A transformação anterior ainda está em andamento.",
        VerbalixError::TextTooLong => "A seleção ultrapassa o limite de 12.000 caracteres.",
        VerbalixError::Unauthenticated
        | VerbalixError::ProviderNotConfigured
        | VerbalixError::ProviderTimeout
        | VerbalixError::ProviderRejected
        | VerbalixError::InvalidResponse => {
            "O serviço de IA está indisponível. Tente novamente ou abra o Verbalix."
        },
        VerbalixError::UnsupportedPlatform => "Esta operação não está disponível nesta plataforma.",
        _ => "Não foi possível aplicar o resultado. Tente novamente.",
    }
}

/// The user-facing message for a failed transformation. Errors that only the
/// live and voice features raise share the message of a local failure.
pub fn transform_failure_message(error: &VerbalixError) -> (message: &'static str)
    ensures
        message == transform_failure_message_spec(*error),
{
    match error {
        VerbalixError::PermissionDenied => "Permita o Acesso à Acessibilidade para continuar.",
        VerbalixError::SelectionUnavailable | VerbalixError::StaleSelection => {
            "A seleção mudou. Selecione o texto novamente."
        },
        VerbalixError::ProtectedField => "Este campo protegido não pode ser alterado.",
        VerbalixError::OperationInProgress => "A transformação anterior ainda está em andamento.",
        VerbalixError::TextTooLong => "A seleção ultrapassa o limite de 12.000 caracteres.",
        VerbalixError::Unauthenticated
        | VerbalixError::ProviderNotConfigured
        | VerbalixError::ProviderTimeout
        | VerbalixError::ProviderRejected
        | VerbalixError::InvalidResponse => {
            "O serviço de IA está indisponível. Tente novamente ou abra o Verbalix."
        },
        VerbalixError::UnsupportedPlatform => "Esta operação não está disponível nesta plataforma.",
        _ => "Não foi possível aplicar o resultado. Tente novamente.",
    }
}

} // verus!
