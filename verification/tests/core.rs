use speech_core::errors::SpeechError;
use speech_core::export::{
    export_payload, nul_terminated_prefix, path_display_name, prepare_export,
};
use speech_core::rate::validate_rate;
use speech_core::request::{prepare_request, synthesis_result, AudioStream};
use speech_core::voice::{catalog_from_query, VoiceCatalog};
use speech_core::winmsg::{loword, makelong};

fn wide(s: &str) -> Vec<u16> {
    s.encode_utf16().collect()
}

fn sample_catalog() -> VoiceCatalog {
    let names = vec![
        "Microsoft Haruka".to_string(),
        "Microsoft Zira".to_string(),
    ];
    let default = "Microsoft Zira".to_string();
    VoiceCatalog::from_engine(names, Some(&default))
}

#[test]
fn rate_accepts_whole_range() {
    assert_eq!(validate_rate(5).unwrap().tenths(), 5);
    assert_eq!(validate_rate(10).unwrap().tenths(), 10);
    assert_eq!(validate_rate(25).unwrap().tenths(), 25);
}

#[test]
fn rate_rejects_out_of_range() {
    assert_eq!(validate_rate(4), Err(SpeechError::InvalidRate));
    assert_eq!(validate_rate(26), Err(SpeechError::InvalidRate));
    assert_eq!(validate_rate(0), Err(SpeechError::InvalidRate));
    assert_eq!(validate_rate(-3), Err(SpeechError::InvalidRate));
}

#[test]
fn resolve_exact_match() {
    let c = sample_catalog();
    let v = c.resolve_voice(&"Microsoft Haruka".to_string()).unwrap();
    assert_eq!(v.display_name, "Microsoft Haruka".to_string());
    assert_eq!(v.engine_handle, 0);
}

#[test]
fn resolve_is_case_sensitive_and_whole_string() {
    let c = sample_catalog();
    assert_eq!(
        c.resolve_voice(&"microsoft haruka".to_string()),
        Err(SpeechError::VoiceNotFound)
    );
    assert_eq!(
        c.resolve_voice(&"Microsoft".to_string()),
        Err(SpeechError::VoiceNotFound)
    );
}

#[test]
fn resolve_unknown_voice_fails() {
    let c = sample_catalog();
    assert_eq!(
        c.resolve_voice(&"NonexistentVoice".to_string()),
        Err(SpeechError::VoiceNotFound)
    );
}

#[test]
fn default_voice_is_engine_default() {
    let c = sample_catalog();
    let v = c.default_voice().unwrap();
    assert_eq!(v.display_name, "Microsoft Zira".to_string());
    assert_eq!(v.engine_handle, 1);
}

#[test]
fn default_voice_unavailable() {
    let names = vec!["Microsoft Haruka".to_string()];
    let c = VoiceCatalog::from_engine(names, None);
    assert_eq!(c.default_voice(), Err(SpeechError::EngineUnavailable));
    let empty = VoiceCatalog::from_engine(Vec::new(), Some(&"X".to_string()));
    assert_eq!(empty.default_voice(), Err(SpeechError::EngineUnavailable));
}

#[test]
fn catalog_query_failure_is_engine_unavailable() {
    assert!(matches!(
        catalog_from_query(None, None),
        Err(SpeechError::EngineUnavailable)
    ));
    let c = catalog_from_query(Some(vec!["A".to_string()]), None).unwrap();
    assert_eq!(c.list_voices().len(), 1);
    assert_eq!(c.list_voices()[0].display_name, "A".to_string());
}

#[test]
fn prepare_request_assembles_all_parts() {
    let c = sample_catalog();
    let sel = "Microsoft Zira".to_string();
    let req = prepare_request(&c, Some(&sel), 10, "hello".to_string()).unwrap();
    assert_eq!(req.text, "hello".to_string());
    assert_eq!(req.rate.tenths(), 10);
    assert_eq!(req.voice.display_name, "Microsoft Zira".to_string());
    assert_eq!(req.voice.engine_handle, 1);
}

#[test]
fn prepare_request_error_order() {
    let c = sample_catalog();
    let known = "Microsoft Zira".to_string();
    let unknown = "NonexistentVoice".to_string();
    assert!(matches!(
        prepare_request(&c, None, 10, String::new()),
        Err(SpeechError::VoiceNotFound)
    ));
    assert!(matches!(
        prepare_request(&c, Some(&unknown), 10, String::new()),
        Err(SpeechError::VoiceNotFound)
    ));
    assert!(matches!(
        prepare_request(&c, Some(&known), 26, String::new()),
        Err(SpeechError::InvalidRate)
    ));
    // An unknown voice outranks a bad rate: the voice is resolved first.
    assert!(matches!(
        prepare_request(&c, Some(&unknown), 26, String::new()),
        Err(SpeechError::VoiceNotFound)
    ));
}

#[test]
fn empty_text_goes_through() {
    let c = sample_catalog();
    let sel = "Microsoft Haruka".to_string();
    let req = prepare_request(&c, Some(&sel), 10, String::new()).unwrap();
    assert_eq!(req.text, String::new());
}

#[test]
fn synthesis_result_mapping() {
    let s = AudioStream {
        content_type: "audio/wav".to_string(),
        byte_length: 44,
    };
    let ok = synthesis_result(Some(s)).unwrap();
    assert_eq!(ok.content_type, "audio/wav".to_string());
    assert_eq!(ok.byte_length, 44);
    assert!(matches!(
        synthesis_result(None),
        Err(SpeechError::SynthesisFailed)
    ));
}

#[test]
fn export_without_destination_is_path_required() {
    let c = sample_catalog();
    let sel = "Microsoft Zira".to_string();
    let r = prepare_export(&c, Some(&sel), 10, "hello".to_string(), None);
    assert!(matches!(r, Err(SpeechError::PathRequired)));
    // Even with a bad selection and rate the missing path is what fails.
    let r2 = prepare_export(&c, None, 99, "hello".to_string(), None);
    assert!(matches!(r2, Err(SpeechError::PathRequired)));
}

#[test]
fn export_prepare_ok() {
    let c = sample_catalog();
    let sel = "Microsoft Zira".to_string();
    let dest = wide("C:\\tmp\\speech.wav");
    let e = prepare_export(&c, Some(&sel), 10, "hello".to_string(), Some(dest.clone())).unwrap();
    assert_eq!(e.path, dest);
    assert_eq!(e.request.text, "hello".to_string());
    assert_eq!(e.request.rate.tenths(), 10);
    assert_eq!(e.request.voice.display_name, "Microsoft Zira".to_string());
}

#[test]
fn export_propagates_request_errors() {
    let c = sample_catalog();
    let unknown = "NonexistentVoice".to_string();
    let known = "Microsoft Zira".to_string();
    let dest = wide("a.wav");
    assert!(matches!(
        prepare_export(&c, Some(&unknown), 10, String::new(), Some(dest.clone())),
        Err(SpeechError::VoiceNotFound)
    ));
    assert!(matches!(
        prepare_export(&c, Some(&known), 26, String::new(), Some(dest)),
        Err(SpeechError::InvalidRate)
    ));
}

#[test]
fn export_payload_matches_declared_size() {
    let s = AudioStream {
        content_type: "audio/wav".to_string(),
        byte_length: 4,
    };
    let bytes = export_payload(&s, vec![1u8, 2, 3, 4]).unwrap();
    assert_eq!(bytes, vec![1u8, 2, 3, 4]);
    assert!(matches!(
        export_payload(&s, vec![1u8, 2, 3]),
        Err(SpeechError::IoError)
    ));
}

#[test]
fn display_name_after_last_separator() {
    assert_eq!(
        path_display_name(&wide("C:\\Users\\me\\speech.wav")).unwrap(),
        wide("speech.wav")
    );
    assert_eq!(
        path_display_name(&wide("dir/sub/out.wav")).unwrap(),
        wide("out.wav")
    );
    assert_eq!(path_display_name(&wide("speech.wav")).unwrap(), wide("speech.wav"));
}

#[test]
fn display_name_missing_is_io_error() {
    assert_eq!(
        path_display_name(&wide("C:\\dir\\")),
        Err(SpeechError::IoError)
    );
    assert_eq!(path_display_name(&wide("")), Err(SpeechError::IoError));
}

#[test]
fn nul_prefix_cuts_dialog_buffer() {
    let mut buf = wide("speech.wav");
    buf.push(0);
    buf.extend([0u16; 5]);
    assert_eq!(nul_terminated_prefix(&buf), wide("speech.wav"));
    assert_eq!(nul_terminated_prefix(&wide("abc")), wide("abc"));
    assert_eq!(nul_terminated_prefix(&vec![0u16]), Vec::<u16>::new());
}

#[test]
fn makelong_packs_low_and_high_words() {
    assert_eq!(makelong(5, 25), 5 + 25 * 0x10000);
    assert_eq!(makelong(0, 0), 0);
    assert_eq!(makelong(0xFFFF, 0x7FFF), 0x7FFF_FFFF);
    assert_eq!(makelong(0, 0x8000), i32::MIN);
}

#[test]
fn loword_takes_low_sixteen_bits() {
    assert_eq!(loword(0xABCD_1234), 0x1234);
    assert_eq!(loword(5 + 25 * 0x10000), 5);
    assert_eq!(loword(makelong(7, 40000) as u32), 7);
}
