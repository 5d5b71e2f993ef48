//! The request model for image generation.

use vstd::prelude::*;

use crate::text_api::common::Integer;
use crate::text_api::request::clone_opt_string;

verus! {

/// The model to use for image generation.
#[derive(Debug, Clone)]
pub struct Model(pub String);

impl Model {
    pub fn dall_e2() -> (r: Model)
        ensures
            r.0@ == "dall-e-2"@,
    {
        Model("dall-e-2".to_owned())
    }

    pub fn dall_e3() -> (r: Model)
        ensures
            r.0@ == "dall-e-3"@,
    {
        Model("dall-e-3".to_owned())
    }
}

/// The quality of the generated image.
#[derive(Debug, Clone)]
pub struct Quality(pub String);

impl Quality {
    pub fn standard() -> (r: Quality)
        ensures
            r.0@ == "standard"@,
    {
        Quality("standard".to_owned())
    }

    pub fn hd() -> (r: Quality)
        ensures
            r.0@ == "hd"@,
    {
        Quality("hd".to_owned())
    }
}

/// The format in which the generated images are returned.
#[derive(Debug, Clone)]
pub struct ResponseFormat(pub String);

impl ResponseFormat {
    pub fn url() -> (r: ResponseFormat)
        ensures
            r.0@ == "url"@,
    {
        ResponseFormat("url".to_owned())
    }

    pub fn b64_json() -> (r: ResponseFormat)
        ensures
            r.0@ == "b64_json"@,
    {
        ResponseFormat("b64_json".to_owned())
    }
}

/// The size of the generated images.
#[derive(Debug, Clone)]
pub struct Size(pub String);

impl Size {
    pub fn dall_e2_256x256() -> (r: Size)
        ensures
            r.0@ == "256x256"@,
    {
        Size("256x256".to_owned())
    }

    pub fn dall_e2_512x512() -> (r: Size)
        ensures
            r.0@ == "512x512"@,
    {
        Size("512x512".to_owned())
    }

    pub fn dall_e2_1024x1024() -> (r: Size)
        ensures
            r.0@ == "1024x1024"@,
    {
        Size("1024x1024".to_owned())
    }

    pub fn dall_e3_1024x1024() -> (r: Size)
        ensures
            r.0@ == "1024x1024"@,
    {
        Size("1024x1024".to_owned())
    }

    pub fn dall_e3_1792x1024() -> (r: Size)
        ensures
            r.0@ == "1792x1024"@,
    {
        Size("1792x1024".to_owned())
    }

    pub fn dall_e3_1024x1792() -> (r: Size)
        ensures
            r.0@ == "1024x1792"@,
    {
        Size("1024x1792".to_owned())
    }
}

/// The text carried by an optional model.
pub open spec fn opt_model_view(o: Option<Model>) -> Option<Seq<char>> {
    match o {
        Some(m) => Some(m.0@),
        None => None,
    }
}

/// The text carried by an optional quality.
pub open spec fn opt_quality_view(o: Option<Quality>) -> Option<Seq<char>> {
    match o {
        Some(q) => Some(q.0@),
        None => None,
    }
}

/// The text carried by an optional response format.
pub open spec fn opt_format_view(o: Option<ResponseFormat>) -> Option<Seq<char>> {
    match o {
        Some(f) => Some(f.0@),
        None => None,
    }
}

/// The text carried by an optional size.
pub open spec fn opt_size_view(o: Option<Size>) -> Option<Seq<char>> {
    match o {
        Some(s) => Some(s.0@),
        None => None,
    }
}

/// Accumulates an image request; `build` validates it.
pub struct RequestBuilder {
    pub prompt: Option<String>,
    pub model: Option<Model>,
    pub n: Option<Integer>,
    pub quality: Option<Quality>,
    pub response_format: Option<ResponseFormat>,
    pub size: Option<Size>,
    pub user: Option<String>,
}

impl Default for RequestBuilder {
    fn default() -> (r: RequestBuilder)
        ensures
            r.prompt is None,
            r.model is None,
            r.n is None,
            r.quality is None,
            r.response_format is None,
            r.size is None,
            r.user is None,
    {
        RequestBuilder {
            prompt: None,
            model: None,
            n: None,
            quality: None,
            response_format: None,
            size: None,
            user: None,
        }
    }
}

impl RequestBuilder {
    pub fn with_prompt(self, prompt: String) -> (r: RequestBuilder)
        ensures
            r.prompt matches Some(p) && p@ == prompt@,
            r.model == self.model,
            r.n == self.n,
            r.quality == self.quality,
            r.response_format == self.response_format,
            r.size == self.size,
            r.user == self.user,
    {
        RequestBuilder { prompt: Some(prompt), ..self }
    }

    pub fn with_model(self, model: Model) -> (r: RequestBuilder)
        ensures
            r.model matches Some(m) && m.0@ == model.0@,
            r.prompt == self.prompt,
            r.n == self.n,
            r.quality == self.quality,
            r.response_format == self.response_format,
            r.size == self.size,
            r.user == self.user,
    {
        RequestBuilder { model: Some(model), ..self }
    }

    pub fn with_n(self, n: Integer) -> (r: RequestBuilder)
        ensures
            r.n == Some(n),
            r.prompt == self.prompt,
            r.model == self.model,
            r.quality == self.quality,
            r.response_format == self.response_format,
            r.size == self.size,
            r.user == self.user,
    {
        RequestBuilder { n: Some(n), ..self }
    }

    pub fn with_quality(self, quality: Quality) -> (r: RequestBuilder)
        ensures
            r.quality matches Some(q) && q.0@ == quality.0@,
            r.prompt == self.prompt,
            r.model == self.model,
            r.n == self.n,
            r.response_format == self.response_format,
            r.size == self.size,
            r.user == self.user,
    {
        RequestBuilder { quality: Some(quality), ..self }
    }

    pub fn with_response_format(self, response_format: ResponseFormat) -> (r: RequestBuilder)
        ensures
            r.response_format matches Some(f) && f.0@ == response_format.0@,
            r.prompt == self.prompt,
            r.model == self.model,
            r.n == self.n,
            r.quality == self.quality,
            r.size == self.size,
            r.user == self.user,
    {
        RequestBuilder { response_format: Some(response_format), ..self }
    }

    pub fn with_size(self, size: Size) -> (r: RequestBuilder)
        ensures
            r.size matches Some(s) && s.0@ == size.0@,
            r.prompt == self.prompt,
            r.model == self.model,
            r.n == self.n,
            r.quality == self.quality,
            r.response_format == self.response_format,
            r.user == self.user,
    {
        RequestBuilder { size: Some(size), ..self }
    }

    pub fn with_user(self, user: String) -> (r: RequestBuilder)
        ensures
            r.user matches Some(u) && u@ == user@,
            r.prompt == self.prompt,
            r.model == self.model,
            r.n == self.n,
            r.quality == self.quality,
            r.response_format == self.response_format,
            r.size == self.size,
    {
        RequestBuilder { user: Some(user), ..self }
    }

    /// Validates the draft: the prompt is required; every other field stays
    /// optional, passes through unchanged, and is carried as its plain wire
    /// spelling.
    pub fn build(self) -> (r: Option<Request>)
        ensures
            self.prompt is Some ==> (r matches Some(q) && q.prompt@ == self.prompt->0@
                && crate::text_api::request::view_of_opt_string(q.model) == opt_model_view(
                self.model,
            ) && q.n == self.n && crate::text_api::request::view_of_opt_string(q.quality)
                == opt_quality_view(self.quality)
                && crate::text_api::request::view_of_opt_string(q.response_format)
                == opt_format_view(self.response_format)
                && crate::text_api::request::view_of_opt_string(q.size) == opt_size_view(self.size)
                && crate::text_api::request::view_of_opt_string(q.user)
                == crate::text_api::request::view_of_opt_string(self.user)),
            self.prompt is None ==> r is None,
    {
        let prompt = match self.prompt {
            Some(p) => p,
            None => {
                return None;
            },
        };
        Some(
            Request {
                prompt,
                model: match self.model {
                    Some(m) => Some(m.0),
                    None => None,
                },
                n: self.n,
                quality: match self.quality {
                    Some(q) => Some(q.0),
                    None => None,
                },
                response_format: match self.response_format {
                    Some(f) => Some(f.0),
                    None => None,
                },
                size: match self.size {
                    Some(s) => Some(s.0),
                    None => None,
                },
                user: self.user,
            },
        )
    }
}

/// A validated image request, its optional fields already in wire spelling.
pub struct Request {
    pub prompt: String,
    pub model: Option<String>,
    pub n: Option<Integer>,
    pub quality: Option<String>,
    pub response_format: Option<String>,
    pub size: Option<String>,
    pub user: Option<String>,
}

impl Clone for Request {
    fn clone(&self) -> (r: Self)
        ensures
            r.prompt@ == self.prompt@,
            r.n == self.n,
    {
        Request {
            prompt: self.prompt.clone(),
            model: clone_opt_string(&self.model),
            n: self.n,
            quality: clone_opt_string(&self.quality),
            response_format: clone_opt_string(&self.response_format),
            size: clone_opt_string(&self.size),
            user: clone_opt_string(&self.user),
        }
    }
}

} // verus!
