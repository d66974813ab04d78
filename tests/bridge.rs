use grab_actions::clipboard::{clipboard_script, copy_result, ClipboardMailbox, CopyRun};
use grab_actions::content::{image_content, metadata_content, text_content, FileRead, SidecarRead};
use grab_actions::session::{capture_id_on_window_event, extract_capture_id};
use grab_actions::settings::{
    load_settings, resolve_captures_dir, AppSettings, CapturesDir, SettingsFile, SettingsLoad,
};

fn args(v: &[&str]) -> Vec<String> {
    v.iter().map(|s| s.to_string()).collect()
}

fn settings(folder: &str, default: &str) -> AppSettings {
    AppSettings { capture_folder: folder.to_string(), default_capture_folder: default.to_string() }
}

#[test]
fn capture_id_found() {
    assert_eq!(extract_capture_id(&args(&["grab", "--capture-id=abc"])), Some("abc".to_string()));
}

#[test]
fn capture_id_absent_or_empty() {
    assert_eq!(extract_capture_id(&args(&["grab"])), None);
    assert_eq!(extract_capture_id(&args(&[])), None);
    assert_eq!(extract_capture_id(&args(&["grab", "--capture-id="])), None);
    assert_eq!(extract_capture_id(&args(&["grab", "--capture-id"])), None);
    assert_eq!(extract_capture_id(&args(&["grab", "x--capture-id=abc"])), None);
}

#[test]
fn capture_id_first_non_empty_wins() {
    let a = args(&["grab", "--capture-id=", "--capture-id=first", "--capture-id=second"]);
    assert_eq!(extract_capture_id(&a), Some("first".to_string()));
}

#[test]
fn capture_id_value_is_all_text_after_flag() {
    let a = args(&["grab", "--capture-id=--capture-id=xyz"]);
    assert_eq!(extract_capture_id(&a), Some("--capture-id=xyz".to_string()));
    let a = args(&["grab", "--capture-id=--capture-id="]);
    assert_eq!(extract_capture_id(&a), Some("--capture-id=".to_string()));
}

#[test]
fn capture_id_on_focus_only() {
    let a = args(&["grab", "--capture-id=q1"]);
    assert_eq!(capture_id_on_window_event(true, &a), Some("q1".to_string()));
    assert_eq!(capture_id_on_window_event(false, &a), None);
}

#[test]
fn first_run_record_uses_default_twice() {
    let s = AppSettings::first_run("/home/u/captures".to_string());
    assert_eq!(s, settings("/home/u/captures", "/home/u/captures"));
}

#[test]
fn load_settings_cases() {
    assert_eq!(load_settings(SettingsFile::Missing), SettingsLoad::CreateDefault);
    assert_eq!(
        load_settings(SettingsFile::Unreadable("bad json".to_string())),
        SettingsLoad::Failed("bad json".to_string())
    );
    let r = settings("/a", "/b");
    assert_eq!(load_settings(SettingsFile::Stored(r.clone())), SettingsLoad::Loaded(r));
}

#[test]
fn saved_settings_load_back() {
    let r = settings("/Volumes/usb/caps", "/home/u/captures");
    match load_settings(SettingsFile::Stored(r.clone())) {
        SettingsLoad::Loaded(l) => {
            assert_eq!(l.capture_folder, r.capture_folder);
            assert_eq!(l.default_capture_folder, r.default_capture_folder);
        }
        other => panic!("unexpected {:?}", other),
    }
}

#[test]
fn resolve_uses_existing_configured_folder() {
    let s = Ok(settings("/custom", "/default"));
    assert_eq!(resolve_captures_dir(&s, true), CapturesDir::Configured("/custom".to_string()));
}

#[test]
fn resolve_falls_back_without_touching_settings() {
    let s = Ok(settings("/gone", "/default"));
    assert_eq!(resolve_captures_dir(&s, false), CapturesDir::Default);
    assert_eq!(s, Ok(settings("/gone", "/default")));
    let e: Result<AppSettings, String> = Err("unreadable".to_string());
    assert_eq!(resolve_captures_dir(&e, true), CapturesDir::Default);
}

#[test]
fn poll_twice_delivers_once() {
    let mut mb = ClipboardMailbox { pending: Some("{\"action\":\"copy\",\"n\":1}".to_string()) };
    let first = mb.poll().unwrap();
    let v = first.expect("an event");
    assert_eq!(v["action"], "copy");
    assert!(mb.pending.is_none());
    assert!(mb.poll().unwrap().is_none());
}

#[test]
fn poll_empty_mailbox() {
    let mut mb = ClipboardMailbox { pending: None };
    assert!(mb.poll().unwrap().is_none());
    assert!(mb.pending.is_none());
}

#[test]
fn poll_malformed_event_keeps_file() {
    let mut mb = ClipboardMailbox { pending: Some("{not json".to_string()) };
    let e = mb.poll().unwrap_err();
    assert!(e.starts_with("Failed to parse clipboard event JSON: "));
    assert_eq!(mb.pending, Some("{not json".to_string()));
}

#[test]
fn image_content_is_base64() {
    let r = image_content("/c/a.png", FileRead::Contents(b"hello".to_vec()));
    assert_eq!(r, Ok("aGVsbG8=".to_string()));
    let r = image_content("/c/a.png", FileRead::Contents(vec![0u8, 255, 16]));
    assert_eq!(r, Ok("AP8Q".to_string()));
    assert_eq!(image_content("/c/e.png", FileRead::Contents(Vec::new())), Ok(String::new()));
}

#[test]
fn image_content_errors() {
    assert_eq!(
        image_content("/c/a.png", FileRead::Missing),
        Err("Image file not found: /c/a.png".to_string())
    );
    assert_eq!(
        image_content("/c/a.png", FileRead::Failed("denied".to_string())),
        Err("Failed to read image file: denied".to_string())
    );
}

#[test]
fn text_content_cases() {
    assert_eq!(text_content(FileRead::Contents("hi".to_string())), Ok("hi".to_string()));
    assert_eq!(text_content(FileRead::Missing), Err("Text file not found".to_string()));
    assert_eq!(
        text_content(FileRead::Failed("io".to_string())),
        Err("Failed to read text file: io".to_string())
    );
}

#[test]
fn metadata_content_errors() {
    assert_eq!(metadata_content(SidecarRead::Missing), Err("Metadata file not found".to_string()));
    assert_eq!(
        metadata_content(SidecarRead::ReadFailed("io".to_string())),
        Err("Failed to read metadata file: io".to_string())
    );
    assert_eq!(
        metadata_content(SidecarRead::Malformed("eof".to_string())),
        Err("Failed to parse metadata: eof".to_string())
    );
}

#[test]
fn clipboard_script_quotes_path() {
    assert_eq!(
        clipboard_script("/c/a.png"),
        "set the clipboard to (read file POSIX file \"/c/a.png\") as JPEG picture"
    );
}

#[test]
fn copy_result_cases() {
    assert_eq!(copy_result(CopyRun::NotFound), Err("Image file not found".to_string()));
    assert_eq!(
        copy_result(CopyRun::LaunchFailed("no such file".to_string())),
        Err("Failed to execute osascript: no such file".to_string())
    );
    assert_eq!(
        copy_result(CopyRun::Exited { success: false, stderr: "boom".to_string() }),
        Err("Failed to copy image to clipboard: boom".to_string())
    );
    assert_eq!(copy_result(CopyRun::Exited { success: true, stderr: String::new() }), Ok(()));
}
