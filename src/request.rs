//! What a client asks for.
use vstd::prelude::*;

verus! {

/// The body of a conversion request: markup to compile, or the address of a
/// page to render first.
pub struct PdfRequest {
    pub html: Option<String>,
    pub url: Option<String>,
}

/// The strategy a request selects; markup wins when both fields are set.
pub enum Conversion {
    Markup(String),
    Source(String),
    Invalid,
}

pub open spec fn conversion_of(req: PdfRequest) -> Conversion {
    match req.html {
        Some(h) => Conversion::Markup(h),
        None => match req.url {
            Some(u) => Conversion::Source(u),
            None => Conversion::Invalid,
        },
    }
}

impl PdfRequest {
    /// Decides once, at entry, which way the request goes.
    pub fn classify(self) -> (r: Conversion)
        ensures
            r == conversion_of(self),
    {
        match self.html {
            Some(h) => Conversion::Markup(h),
            None => match self.url {
                Some(u) => Conversion::Source(u),
                None => Conversion::Invalid,
            },
        }
    }
}

} // verus!
