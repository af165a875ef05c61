use broadcast_terminal::endpoint::{rtmp_host, stream_url};
use broadcast_terminal::font::Icon;
use broadcast_terminal::frame::Frame;
use broadcast_terminal::ingest::{IngestError, Service, Twitch, TwitchIngest};
use broadcast_terminal::plan::{Caps, CapsPreset, PixelFormat};
use broadcast_terminal::setting::{MicrophoneMode, Overrides, Settings};
use broadcast_terminal::view::control::{decide, ControlAction, Key, Message as Control};
use broadcast_terminal::view::ingests::Message as Ingests;
use broadcast_terminal::view::setting::Message as SettingMessage;
use broadcast_terminal::view::setting::{Focus, Form};
use broadcast_terminal::view::{change_view, Message, View, ViewAction, ViewMessage};

#[test]
fn overrides_replace_stored_values() {
    let mut stored = Settings::default();
    stored.broadcast.custom_url = "rtmp://stored/app/".to_string();
    stored.broadcast.stream_key = "stored-key".to_string();
    stored.device.camera_device = Some("/dev/video2".to_string());
    let o = Overrides {
        rtmp_url: None,
        stream_key: Some("env-key".to_string()),
        hdmi_device: Some("/dev/video0".to_string()),
        camera_device: None,
        ingest_service: Some(Service::Twitch),
        mic_mode: Some(MicrophoneMode::ForceStereo),
    };
    let s = stored.with_overrides(o);
    assert_eq!(s.broadcast.custom_url, "rtmp://stored/app/");
    assert_eq!(s.broadcast.stream_key, "env-key");
    assert_eq!(s.device.hdmi_device, Some("/dev/video0".to_string()));
    assert_eq!(s.device.camera_device, Some("/dev/video2".to_string()));
    assert_eq!(s.broadcast.ingest_service, Some(Service::Twitch));
    assert_eq!(s.media.mic_mode, Some(MicrophoneMode::ForceStereo));
}

#[test]
fn default_settings_are_empty() {
    let s = Settings::default();
    assert_eq!(s.broadcast.ingest_service, None);
    assert!(s.broadcast.custom_url.is_empty());
    assert_eq!(s.media.mic_mode, None);
    assert_eq!(Service::default(), Service::Custom);
}

#[test]
fn ingest_url_by_service() {
    let custom = "rtmp://live.example.com/app/{stream_key}".to_string();
    let twitch = Some(Twitch {
        ingests: vec![
            TwitchIngest { name: "A".to_string(), url_template: "rtmp://a.twitch/app/{stream_key}".to_string() },
            TwitchIngest { name: "B".to_string(), url_template: "rtmp://b.twitch/app/{stream_key}".to_string() },
        ],
    });
    assert_eq!(Service::get_ingest_url(None, &custom, &None), Err(IngestError::InvalidSetting));
    assert_eq!(
        Service::get_ingest_url(Some(Service::YouTubeLive), &custom, &None).unwrap(),
        "rtmp://a.rtmp.youtube.com/live2/{stream_key}"
    );
    assert_eq!(
        Service::get_ingest_url(Some(Service::Twitch), &custom, &twitch).unwrap(),
        "rtmp://a.twitch/app/{stream_key}"
    );
    assert_eq!(Service::get_ingest_url(Some(Service::Custom), &custom, &None).unwrap(), custom);
}

#[test]
fn host_shown_for_address() {
    assert_eq!(rtmp_host(Some(Service::Custom), "rtmp://live.example.com:1935/live/key"), "live.example.com:1935");
    assert_eq!(rtmp_host(Some(Service::Custom), "rtmp://host/app"), "host");
    assert_eq!(rtmp_host(Some(Service::Custom), "rtmp://host"), "Invalid host");
    assert_eq!(rtmp_host(Some(Service::Custom), ""), "Invalid host");
    assert_eq!(rtmp_host(None, "rtmp://host/app/key"), "Invalid host");
    assert_eq!(rtmp_host(Some(Service::YouTubeLive), "rtmp://host/app/key"), "YouTube Live");
    assert_eq!(rtmp_host(Some(Service::Twitch), ""), "Twitch");
}

#[test]
fn stream_address_takes_the_key() {
    assert_eq!(stream_url("rtmp://a.rtmp.youtube.com/live2/{stream_key}", "abcd"), "rtmp://a.rtmp.youtube.com/live2/abcd");
    assert_eq!(stream_url("rtmp://host/app/", "k"), "rtmp://host/app/k");
    assert_eq!(stream_url("{stream_key}x{stream_key}", "k"), "xk");
    assert_eq!(stream_url("{stream_ke", "k"), "{stream_kek");
    assert_eq!(stream_url("", ""), "");
}

#[test]
fn service_names() {
    assert_eq!(Service::YouTubeLive.name(), "YouTube Live");
    assert_eq!(Service::Twitch.name(), "Twitch");
    assert_eq!(Service::Custom.name(), "Custom URL");
    assert_eq!(Service::ALL.len(), 3);
}

#[test]
fn changing_view() {
    assert_eq!(change_view(View::Control, View::Ingests), ViewAction::FetchIngests);
    assert_eq!(change_view(View::Ingests, View::Setting), ViewAction::RefreshSetting);
    assert_eq!(change_view(View::Control, View::Setting), ViewAction::Nothing);
    assert_eq!(change_view(View::Setting, View::Control), ViewAction::ReloadSetting);
}

#[test]
fn control_keys() {
    assert_eq!(decide(Control::KeyReleased(Key::A)), ControlAction::ToggleCamera);
    assert_eq!(decide(Control::KeyReleased(Key::S)), ControlAction::ToggleMic);
    assert_eq!(decide(Control::KeyReleased(Key::F)), ControlAction::FetchIngestUrl);
    assert_eq!(decide(Control::KeyReleased(Key::Other)), ControlAction::Nothing);
    assert_eq!(decide(Control::UpdateFrame), ControlAction::Nothing);
    assert_eq!(decide(Control::StartStream("rtmp://x".to_string())), ControlAction::StartStream("rtmp://x".to_string()));
    assert_eq!(decide(Control::IngestFailed(IngestError::InvalidSetting)), ControlAction::Nothing);
}

#[test]
fn messages_route_to_their_screen() {
    let m: Message = Control::UpdateFrame.into();
    assert!(matches!(m, Message::ViewMessage(ViewMessage::Control(Control::UpdateFrame))));
    let m: Message = SettingMessage::UpdateSetting.into();
    assert!(matches!(m, Message::ViewMessage(ViewMessage::Setting(SettingMessage::UpdateSetting))));
    let m: Message = Ingests::SelectIngest("u".to_string()).into();
    assert!(matches!(m, Message::ViewMessage(ViewMessage::Ingests(Ingests::SelectIngest(_)))));
    let m: Message = ViewMessage::Control(Control::UpdateFrame).into();
    assert!(matches!(m, Message::ViewMessage(ViewMessage::Control(_))));
}

#[test]
fn setting_form_edits_focused_input() {
    let mut f = Form { ingest_service: None, custom_url: String::new(), stream_key: String::new(), is_secure: true };
    assert!(!f.update(SettingMessage::InputChanged("rtmp://h/a/".to_string()), Focus::Url));
    assert!(!f.update(SettingMessage::InputChanged("key".to_string()), Focus::Key));
    assert!(!f.update(SettingMessage::InputChanged("lost".to_string()), Focus::Nothing));
    assert!(!f.update(SettingMessage::SelectIngestService(Service::Custom), Focus::Nothing));
    assert!(!f.update(SettingMessage::ToggleSecureInput(false), Focus::Nothing));
    assert!(f.update(SettingMessage::UpdateSetting, Focus::Url));
    assert_eq!(f.custom_url, "rtmp://h/a/");
    assert_eq!(f.stream_key, "key");
    assert_eq!(f.ingest_service, Some(Service::Custom));
    assert!(!f.is_secure);
}

#[test]
fn icon_glyphs() {
    assert_eq!(Icon::Gear.glyph(), '\u{f013}');
    assert_eq!(Icon::Microphone.glyph(), '\u{f130}');
    assert_eq!(Icon::Shuffle.glyph(), '\u{f074}');
}

#[test]
fn caps_presets() {
    let c = CapsPreset::Capture.caps();
    assert_eq!((c.width, c.height, c.framerate, c.format), (Some(1280), Some(720), Some(30), Some(PixelFormat::Uyvy)));
    let a: Caps = CapsPreset::Stereo.caps();
    assert!(!a.video);
    assert_eq!((a.channels, a.rate), (Some(2), Some(48000)));
}

#[test]
fn frames() {
    let b = Frame::blank();
    assert_eq!((b.width, b.height, b.pixels.len()), (1, 1, 4));
    let f = Frame::from_sample(Some(vec![1, 2, 3])).unwrap();
    assert_eq!((f.width, f.height), (1280, 720));
    assert_eq!(f.pixels, vec![1, 2, 3]);
    assert!(Frame::from_sample(None).is_none());
}
