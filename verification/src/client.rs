//! The client: a normalized base URL and one request builder per server
//! operation.
//!
//! Sending a request over the network is the surrounding program's job:
//! every builder returns a plain description of the HTTP request to make,
//! and the response handlers classify what comes back.

use vstd::prelude::*;

use crate::encode::brightness_body;
use crate::encode::color_body;
use crate::encode::render_brightness_body;
use crate::encode::render_color_body;
use crate::encode::render_start_body;
use crate::encode::start_body;
use crate::errors::brightness_message;
use crate::errors::build_brightness_message;
use crate::errors::ApiError;
use crate::text::chars_to_string;
use crate::text::push_chars;
use crate::text::str_chars;
use crate::urls::default_base_url;
use crate::urls::format_base_url;
use crate::urls::normalize_base_url;
use crate::urls::resolve_base_url;
use crate::values::params_model;
use crate::values::parse_params;
use crate::values::ParamMap;

verus! {

/// The HTTP method of a request the client builds.
#[derive(Debug, Clone, Copy, PartialEq, Eq)]
pub enum HttpMethod {
    Get,
    Post,
}

/// A request the client asks the surrounding program to send. A body, when
/// present, is JSON text.
#[derive(Debug, Clone)]
pub struct HttpRequest {
    pub method: HttpMethod,
    pub url: String,
    pub body: Option<String>,
}

/// A response as the surrounding program hands it back: the status code
/// and the full body text.
#[derive(Debug, Clone)]
pub struct HttpResponse {
    pub status: u16,
    pub body: String,
}

/// An effect-management command, as the command line carries it.
#[derive(Debug, Clone, PartialEq, Eq)]
pub enum EffectCommands {
    List,
    Running,
    Info { name: String },
    Start { name: String, param: Vec<String> },
    Stop,
}

/// The client: owns the normalized base URL every request starts from.
pub struct LightWaveClient {
    pub base_url: String,
}

impl LightWaveClient {
    /// Builds a client from the environment-provided URL, or the default
    /// where none is given. Reading the environment itself is the
    /// surrounding program's job.
    pub fn new(env_url: Option<&str>) -> (c: Self)
        ensures
            env_url matches Some(u) ==> c.base_url@ == normalize_base_url(u@),
            env_url is None ==> c.base_url@ == default_base_url(),
    {
        let base_url = resolve_base_url(None, env_url);
        LightWaveClient { base_url }
    }

    /// Builds a client from an explicit base URL, normalizing it.
    pub fn with_base_url(url: &str) -> (c: Self)
        ensures
            c.base_url@ == normalize_base_url(url@),
    {
        let base_url = format_base_url(url);
        LightWaveClient { base_url }
    }

    /// The base URL followed by `suffix`.
    fn url_with(&self, suffix: &str) -> (r: String)
        ensures
            r@ == self.base_url@ + suffix@,
    {
        let mut v = str_chars(self.base_url.as_str());
        push_chars(&mut v, suffix);
        chars_to_string(&v)
    }

    /// The request that lists all effects.
    pub fn list_effects_request(&self) -> (r: HttpRequest)
        ensures
            r.method is Get,
            r.url@ == self.base_url@ + "/effects"@,
            r.body is None,
    {
        HttpRequest { method: HttpMethod::Get, url: self.url_with("/effects"), body: None }
    }

    /// The request that fetches the detailed description of one effect.
    pub fn effect_info_request(&self, name: &str) -> (r: HttpRequest)
        ensures
            r.method is Get,
            r.url@ == self.base_url@ + "/effects/"@ + name@,
            r.body is None,
    {
        let mut v = str_chars(self.base_url.as_str());
        push_chars(&mut v, "/effects/");
        push_chars(&mut v, name);
        HttpRequest { method: HttpMethod::Get, url: chars_to_string(&v), body: None }
    }

    /// The request that fetches the running-effect status.
    pub fn effect_status_request(&self) -> (r: HttpRequest)
        ensures
            r.method is Get,
            r.url@ == self.base_url@ + "/status"@,
            r.body is None,
    {
        HttpRequest { method: HttpMethod::Get, url: self.url_with("/status"), body: None }
    }

    /// The request that starts an effect with the given coerced
    /// parameters.
    pub fn start_effect_request(&self, name: &str, parameters: &ParamMap) -> (r: HttpRequest)
        ensures
            r.method is Post,
            r.url@ == self.base_url@ + "/effects/start"@,
            r.body matches Some(b) && b@ == start_body(name@, parameters@),
    {
        HttpRequest {
            method: HttpMethod::Post,
            url: self.url_with("/effects/start"),
            body: Some(render_start_body(name, parameters)),
        }
    }

    /// The request that stops the running effect.
    pub fn stop_effect_request(&self) -> (r: HttpRequest)
        ensures
            r.method is Post,
            r.url@ == self.base_url@ + "/effects/stop"@,
            r.body is None,
    {
        HttpRequest { method: HttpMethod::Post, url: self.url_with("/effects/stop"), body: None }
    }

    /// The request that sets the LED color. The color format is opaque to
    /// the client; the server validates it.
    pub fn set_color_request(&self, color: &str) -> (r: HttpRequest)
        ensures
            r.method is Post,
            r.url@ == self.base_url@ + "/leds/color"@,
            r.body matches Some(b) && b@ == color_body(color@),
    {
        HttpRequest {
            method: HttpMethod::Post,
            url: self.url_with("/leds/color"),
            body: Some(render_color_body(color)),
        }
    }

    /// The request that sets the LED brightness, or the client-side
    /// precondition error where the value is out of range. The caller
    /// passes the brightness as its JSON float literal together with the
    /// range check `0.0 <= value <= 1.0`, which the library cannot carry
    /// out itself; out of range, no request is built and nothing is sent.
    pub fn set_brightness_request(&self, brightness_lit: &str, in_range: bool) -> (r: Result<
        HttpRequest,
        ApiError,
    >)
        ensures
            !in_range ==> (r matches Err(e) && e matches ApiError::ClientError(m) && m@
                == brightness_message()),
            in_range ==> (r matches Ok(req) && req.method is Post && req.url@ == self.base_url@
                + "/leds/brightness"@ && (req.body matches Some(b) && b@ == brightness_body(
                brightness_lit@,
            ))),
    {
        if !in_range {
            return Err(ApiError::ClientError(build_brightness_message()));
        }
        Ok(
            HttpRequest {
                method: HttpMethod::Post,
                url: self.url_with("/leds/brightness"),
                body: Some(render_brightness_body(brightness_lit)),
            },
        )
    }

    /// The request that turns all LEDs off.
    pub fn clear_leds_request(&self) -> (r: HttpRequest)
        ensures
            r.method is Post,
            r.url@ == self.base_url@ + "/leds/clear"@,
            r.body is None,
    {
        HttpRequest { method: HttpMethod::Post, url: self.url_with("/leds/clear"), body: None }
    }

    /// The request an effect-management command asks for: the dispatch
    /// layer sends it and hands the response to the matching handler.
    pub fn request_for_effect_command(&self, cmd: &EffectCommands) -> (r: HttpRequest)
        ensures
            match cmd {
                EffectCommands::List => r.method is Get && r.url@ == self.base_url@ + "/effects"@
                    && r.body is None,
                EffectCommands::Running => r.method is Get && r.url@ == self.base_url@ + "/status"@
                    && r.body is None,
                EffectCommands::Info { name } => r.method is Get && r.url@ == self.base_url@
                    + "/effects/"@ + name@ && r.body is None,
                EffectCommands::Start { name, param } => r.method is Post && r.url@
                    == self.base_url@ + "/effects/start"@ && (r.body matches Some(b) && b@
                    == start_body(name@, params_model(param@.map_values(|s: String| s@)))),
                EffectCommands::Stop => r.method is Post && r.url@ == self.base_url@
                    + "/effects/stop"@ && r.body is None,
            },
    {
        match cmd {
            EffectCommands::List => self.list_effects_request(),
            EffectCommands::Running => self.effect_status_request(),
            EffectCommands::Info { name } => self.effect_info_request(name.as_str()),
            EffectCommands::Start { name, param } => {
                let parameters = parse_params(param);
                self.start_effect_request(name.as_str(), &parameters)
            },
            EffectCommands::Stop => self.stop_effect_request(),
        }
    }
}

} // verus!
