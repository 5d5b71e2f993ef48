//! The request model for speech synthesis.

use vstd::prelude::*;

use crate::text_api::request::Number;

verus! {

/// One of the available text-to-speech models.
#[derive(Debug, Clone)]
pub struct Model(pub String);

/// The voice to use when generating the audio.
#[derive(Debug, Clone)]
pub struct Voice(pub String);

/// The audio container format of the result.
#[derive(Debug, Clone)]
pub struct ResponseFormat(pub String);

impl Model {
    pub fn tts_1() -> (r: Model)
        ensures
            r.0@ == "tts-1"@,
    {
        Model("tts-1".to_owned())
    }

    pub fn tts_1_hd() -> (r: Model)
        ensures
            r.0@ == "tts-1-hd"@,
    {
        Model("tts-1-hd".to_owned())
    }
}

impl Voice {
    pub fn alloy() -> (r: Voice)
        ensures
            r.0@ == "alloy"@,
    {
        Voice("alloy".to_owned())
    }

    pub fn echo() -> (r: Voice)
        ensures
            r.0@ == "echo"@,
    {
        Voice("echo".to_owned())
    }

    pub fn fable() -> (r: Voice)
        ensures
            r.0@ == "fable"@,
    {
        Voice("fable".to_owned())
    }

    pub fn onyx() -> (r: Voice)
        ensures
            r.0@ == "onyx"@,
    {
        Voice("onyx".to_owned())
    }

    pub fn nova() -> (r: Voice)
        ensures
            r.0@ == "nova"@,
    {
        Voice("nova".to_owned())
    }

    pub fn shimmer() -> (r: Voice)
        ensures
            r.0@ == "shimmer"@,
    {
        Voice("shimmer".to_owned())
    }
}

impl ResponseFormat {
    pub fn mp3() -> (r: ResponseFormat)
        ensures
            r.0@ == "mp3"@,
    {
        ResponseFormat("mp3".to_owned())
    }

    pub fn opus() -> (r: ResponseFormat)
        ensures
            r.0@ == "opus"@,
    {
        ResponseFormat("opus".to_owned())
    }

    pub fn aac() -> (r: ResponseFormat)
        ensures
            r.0@ == "aac"@,
    {
        ResponseFormat("aac".to_owned())
    }

    pub fn flac() -> (r: ResponseFormat)
        ensures
            r.0@ == "flac"@,
    {
        ResponseFormat("flac".to_owned())
    }

    pub fn wav() -> (r: ResponseFormat)
        ensures
            r.0@ == "wav"@,
    {
        ResponseFormat("wav".to_owned())
    }

    pub fn pcm() -> (r: ResponseFormat)
        ensures
            r.0@ == "pcm"@,
    {
        ResponseFormat("pcm".to_owned())
    }
}

/// The text carried by an optional response format.
pub open spec fn opt_format_view(o: Option<ResponseFormat>) -> Option<Seq<char>> {
    match o {
        Some(f) => Some(f.0@),
        None => None,
    }
}

/// Accumulates a speech request; `build` validates it. The speed is a decimal
/// number kept in its lexical form.
pub struct RequestBuilder {
    pub model: Option<Model>,
    pub input: Option<String>,
    pub voice: Option<Voice>,
    pub response_format: Option<ResponseFormat>,
    pub speed: Option<Number>,
}

impl Default for RequestBuilder {
    fn default() -> (r: RequestBuilder)
        ensures
            r.model is None,
            r.input is None,
            r.voice is None,
            r.response_format is None,
            r.speed is None,
    {
        RequestBuilder { model: None, input: None, voice: None, response_format: None, speed: None }
    }
}

impl RequestBuilder {
    pub fn with_model(self, model: Model) -> (r: RequestBuilder)
        ensures
            r.model matches Some(m) && m.0@ == model.0@,
            r.input == self.input,
            r.voice == self.voice,
            r.response_format == self.response_format,
            r.speed == self.speed,
    {
        RequestBuilder { model: Some(model), ..self }
    }

    pub fn with_input(self, input: String) -> (r: RequestBuilder)
        ensures
            r.input matches Some(s) && s@ == input@,
            r.model == self.model,
            r.voice == self.voice,
            r.response_format == self.response_format,
            r.speed == self.speed,
    {
        RequestBuilder { input: Some(input), ..self }
    }

    pub fn with_voice(self, voice: Voice) -> (r: RequestBuilder)
        ensures
            r.voice matches Some(v) && v.0@ == voice.0@,
            r.model == self.model,
            r.input == self.input,
            r.response_format == self.response_format,
            r.speed == self.speed,
    {
        RequestBuilder { voice: Some(voice), ..self }
    }

    pub fn with_response_format(self, response_format: ResponseFormat) -> (r: RequestBuilder)
        ensures
            r.response_format matches Some(f) && f.0@ == response_format.0@,
            r.model == self.model,
            r.input == self.input,
            r.voice == self.voice,
            r.speed == self.speed,
    {
        RequestBuilder { response_format: Some(response_format), ..self }
    }

    pub fn with_speed(self, speed: Number) -> (r: RequestBuilder)
        ensures
            r.speed matches Some(n) && n@ == speed@,
            r.model == self.model,
            r.input == self.input,
            r.voice == self.voice,
            r.response_format == self.response_format,
    {
        RequestBuilder { speed: Some(speed), ..self }
    }

    /// Validates the draft: model, input and voice are required; format and
    /// speed stay optional and pass through unchanged.
    pub fn build(self) -> (r: Option<Request>)
        ensures
            self.model is Some && self.input is Some && self.voice is Some ==> (r matches Some(q)
                && q.model.0@ == (self.model->0).0@ && q.input@ == self.input->0@ && q.voice.0@
                == (self.voice->0).0@ && opt_format_view(q.response_format) == opt_format_view(
                self.response_format,
            ) && crate::text_api::request::view_of_opt_number(q.speed)
                == crate::text_api::request::view_of_opt_number(self.speed)),
            self.model is None || self.input is None || self.voice is None ==> r is None,
    {
        let model = match self.model {
            Some(m) => m,
            None => {
                return None;
            },
        };
        let input = match self.input {
            Some(s) => s,
            None => {
                return None;
            },
        };
        let voice = match self.voice {
            Some(v) => v,
            None => {
                return None;
            },
        };
        Some(Request { model, input, voice, response_format: self.response_format, speed: self.speed })
    }
}

/// A validated speech request.
pub struct Request {
    pub model: Model,
    pub input: String,
    pub voice: Voice,
    pub response_format: Option<ResponseFormat>,
    pub speed: Option<Number>,
}

} // verus!
