//! The terminal's settings: the broadcast destination, the capture devices
//! and the microphone mode, with the overrides that the environment brings.
use vstd::prelude::*;
use crate::ingest::Service;

verus! {

/// How the microphone's two channels are mixed.
#[derive(Clone, Copy, Debug, PartialEq, Eq, Structural)]
pub enum MicrophoneMode {
    /// Each channel stays as captured.
    Normal,
    /// Each channel is mixed into the other, so a mono microphone is heard
    /// on both sides.
    ForceStereo,
}

/// Where the stream is published.
#[derive(Clone, Debug)]
pub struct BroadcastSetting {
    pub ingest_service: Option<Service>,
    pub custom_url: String,
    pub stream_key: String,
}

/// The capture devices.
#[derive(Clone, Debug)]
pub struct DeviceSetting {
    pub hdmi_device: Option<String>,
    pub camera_device: Option<String>,
}

/// How media is processed.
#[derive(Clone, Debug)]
pub struct MediaSetting {
    pub mic_mode: Option<MicrophoneMode>,
}

/// All settings of the terminal.
#[derive(Clone, Debug)]
pub struct Settings {
    pub broadcast: BroadcastSetting,
    pub device: DeviceSetting,
    pub media: MediaSetting,
}

impl Default for BroadcastSetting {
    fn default() -> (r: BroadcastSetting)
        ensures
            r.ingest_service is None,
            r.custom_url@.len() == 0,
            r.stream_key@.len() == 0,
    {
        BroadcastSetting { ingest_service: None, custom_url: String::new(), stream_key: String::new() }
    }
}

impl Default for DeviceSetting {
    fn default() -> (r: DeviceSetting)
        ensures
            r.hdmi_device is None,
            r.camera_device is None,
    {
        DeviceSetting { hdmi_device: None, camera_device: None }
    }
}

impl Default for MediaSetting {
    fn default() -> (r: MediaSetting)
        ensures
            r.mic_mode is None,
    {
        MediaSetting { mic_mode: None }
    }
}

impl Default for Settings {
    fn default() -> (r: Settings)
        ensures
            r.broadcast.ingest_service is None,
            r.broadcast.custom_url@.len() == 0,
            r.broadcast.stream_key@.len() == 0,
            r.device.hdmi_device is None,
            r.device.camera_device is None,
            r.media.mic_mode is None,
    {
        Settings {
            broadcast: BroadcastSetting::default(),
            device: DeviceSetting::default(),
            media: MediaSetting::default(),
        }
    }
}

/// Values given by the environment, each replacing the stored one when
/// present.
#[derive(Clone, Debug)]
pub struct Overrides {
    pub rtmp_url: Option<String>,
    pub stream_key: Option<String>,
    pub hdmi_device: Option<String>,
    pub camera_device: Option<String>,
    pub ingest_service: Option<Service>,
    pub mic_mode: Option<MicrophoneMode>,
}

/// `o` when present, else `v`.
pub open spec fn or_else<T>(o: Option<T>, v: T) -> T {
    match o {
        Some(x) => x,
        None => v,
    }
}

/// `o` when present, else `v`.
pub open spec fn or_option<T>(o: Option<T>, v: Option<T>) -> Option<T> {
    match o {
        Some(x) => Some(x),
        None => v,
    }
}

fn pick<T>(o: Option<T>, v: T) -> (r: T)
    ensures
        r == or_else(o, v),
{
    match o {
        Some(x) => x,
        None => v,
    }
}

fn pick_option<T>(o: Option<T>, v: Option<T>) -> (r: Option<T>)
    ensures
        r == or_option(o, v),
{
    match o {
        Some(x) => Some(x),
        None => v,
    }
}

impl Settings {
    /// The stored settings with each value that `o` holds put in place of
    /// the stored one.
    pub fn with_overrides(self, o: Overrides) -> (r: Settings)
        ensures
            r.broadcast.custom_url == or_else(o.rtmp_url, self.broadcast.custom_url),
            r.broadcast.stream_key == or_else(o.stream_key, self.broadcast.stream_key),
            r.broadcast.ingest_service == or_option(o.ingest_service, self.broadcast.ingest_service),
            r.device.hdmi_device == or_option(o.hdmi_device, self.device.hdmi_device),
            r.device.camera_device == or_option(o.camera_device, self.device.camera_device),
            r.media.mic_mode == or_option(o.mic_mode, self.media.mic_mode),
    {
        Settings {
            broadcast: BroadcastSetting {
                ingest_service: pick_option(o.ingest_service, self.broadcast.ingest_service),
                custom_url: pick(o.rtmp_url, self.broadcast.custom_url),
                stream_key: pick(o.stream_key, self.broadcast.stream_key),
            },
            device: DeviceSetting {
                hdmi_device: pick_option(o.hdmi_device, self.device.hdmi_device),
                camera_device: pick_option(o.camera_device, self.device.camera_device),
            },
            media: MediaSetting { mic_mode: pick_option(o.mic_mode, self.media.mic_mode) },
        }
    }
}

} // verus!
