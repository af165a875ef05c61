//! Streaming services and their ingest endpoints.
use vstd::prelude::*;
use vstd::string::StringExecFns;

verus! {

/// A streaming service that the terminal can publish to.
#[derive(Clone, Copy, Debug, PartialEq, Eq, Structural)]
pub enum Service {
    YouTubeLive,
    Twitch,
    Custom,
}

/// The ingest address of YouTube Live, with the place of the stream key.
pub const YOUTUBE_INGEST: &'static str = "rtmp://a.rtmp.youtube.com/live2/{stream_key}";

impl Service {
    /// Every service, in the order they are offered.
    pub const ALL: [Service; 3] = [Service::YouTubeLive, Service::Twitch, Service::Custom];

    /// The name the service is shown under.
    pub fn name(&self) -> (r: &'static str)
        ensures
            *self == Service::YouTubeLive ==> r@ == "YouTube Live"@,
            *self == Service::Twitch ==> r@ == "Twitch"@,
            *self == Service::Custom ==> r@ == "Custom URL"@,
    {
        match self {
            Service::YouTubeLive => "YouTube Live",
            Service::Twitch => "Twitch",
            Service::Custom => "Custom URL",
        }
    }
}

impl Default for Service {
    fn default() -> (r: Service)
        ensures
            r == Service::Custom,
    {
        Service::Custom
    }
}

/// One ingest endpoint of Twitch.
#[derive(Clone, Debug)]
pub struct TwitchIngest {
    pub name: String,
    pub url_template: String,
}

/// The ingest endpoints that Twitch lists.
#[derive(Clone, Debug)]
pub struct Twitch {
    pub ingests: Vec<TwitchIngest>,
}

/// Why no ingest address could be chosen.
#[derive(Clone, Copy, Debug, PartialEq, Eq, Structural)]
pub enum IngestError {
    /// No streaming service is set.
    InvalidSetting,
}

impl Service {
    /// The ingest address template of `service`: YouTube Live's fixed
    /// address, the first endpoint that Twitch lists (`twitch`), or the
    /// custom address `custom_url`.
    pub fn get_ingest_url(service: Option<Service>, custom_url: &String, twitch: &Option<Twitch>) -> (r: Result<String, IngestError>)
        requires
            service == Some(Service::Twitch) ==> twitch is Some && twitch->Some_0.ingests@.len() > 0,
        ensures
            service is None ==> r == Err::<String, IngestError>(IngestError::InvalidSetting),
            service == Some(Service::YouTubeLive) ==> r is Ok && r->Ok_0@ == YOUTUBE_INGEST@,
            service == Some(Service::Twitch) ==> r is Ok && r->Ok_0@ == twitch->Some_0.ingests@[0].url_template@,
            service == Some(Service::Custom) ==> r is Ok && r->Ok_0@ == custom_url@,
    {
        match service {
            None => Err(IngestError::InvalidSetting),
            Some(Service::YouTubeLive) => Ok(String::from_str(YOUTUBE_INGEST)),
            Some(Service::Twitch) => {
                match twitch {
                    Some(t) => Ok(t.ingests[0].url_template.clone()),
                    None => Err(IngestError::InvalidSetting),
                }
            },
            Some(Service::Custom) => Ok(custom_url.clone()),
        }
    }
}

} // verus!
