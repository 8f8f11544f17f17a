//! Decisions of the background pre-generation pass: the preview sizes, which
//! products a pass renders, when a cached product is kept, and the counts a
//! pass reports.
use vstd::prelude::*;
use crate::api::AppError;
use crate::text::{push_text, str_eq};

verus! {

/// Rendered preview sizes.
#[derive(Clone, Copy, Debug, PartialEq, Eq, Structural)]
pub enum PreviewSize {
    /// At most 1200 pixels on a side.
    Screen,
    /// At most 2000 pixels on a side.
    Large,
    /// Not resized.
    Original,
}

impl PreviewSize {
    /// The size a request names; a bad request for any other name.
    pub fn parse(name: &str) -> (r: Result<PreviewSize, AppError>)
        ensures
            name@ == "screen"@ <==> r == Ok::<PreviewSize, AppError>(PreviewSize::Screen),
            name@ == "large"@ <==> r == Ok::<PreviewSize, AppError>(PreviewSize::Large),
            name@ == "original"@ <==> r == Ok::<PreviewSize, AppError>(PreviewSize::Original),
            r is Err ==> (r matches Err(AppError::BadRequest(m)) && m@ == "Invalid size: "@ + name@),
    {
        proof {
            reveal_strlit("screen");
            reveal_strlit("large");
            reveal_strlit("original");
            assert("screen"@.len() == 6 && "large"@.len() == 5 && "original"@.len() == 8);
        }
        if str_eq(name, "screen") {
            Ok(PreviewSize::Screen)
        } else if str_eq(name, "large") {
            Ok(PreviewSize::Large)
        } else if str_eq(name, "original") {
            Ok(PreviewSize::Original)
        } else {
            let mut m = String::new();
            push_text(&mut m, "Invalid size: ");
            push_text(&mut m, name);
            Err(AppError::BadRequest(m))
        }
    }

    /// The size's name in requests and cache keys.
    pub fn name(&self) -> (r: &'static str)
        ensures
            *self == PreviewSize::Screen ==> r@ == "screen"@,
            *self == PreviewSize::Large ==> r@ == "large"@,
            *self == PreviewSize::Original ==> r@ == "original"@,
    {
        match self {
            PreviewSize::Screen => "screen",
            PreviewSize::Large => "large",
            PreviewSize::Original => "original",
        }
    }

    /// Longest side of the rendering in pixels; none for the original size.
    pub fn max_dimension(&self) -> (r: Option<u32>)
        ensures
            *self == PreviewSize::Screen ==> r == Some(1200u32),
            *self == PreviewSize::Large ==> r == Some(2000u32),
            *self == PreviewSize::Original ==> r is None,
    {
        match self {
            PreviewSize::Screen => Some(1200),
            PreviewSize::Large => Some(2000),
            PreviewSize::Original => None,
        }
    }
}

/// The preview size a request asks for: `screen` when it names none.
pub fn requested_size(size: &Option<String>) -> (r: Result<PreviewSize, AppError>)
    ensures
        size is None ==> r == Ok::<PreviewSize, AppError>(PreviewSize::Screen),
        size matches Some(n) ==> (n@ == "screen"@ <==> r == Ok::<PreviewSize, AppError>(PreviewSize::Screen))
            && (n@ == "large"@ <==> r == Ok::<PreviewSize, AppError>(PreviewSize::Large))
            && (n@ == "original"@ <==> r == Ok::<PreviewSize, AppError>(PreviewSize::Original))
            && (r is Err ==> (r matches Err(AppError::BadRequest(m)) && m@ == "Invalid size: "@ + n@)),
{
    match size {
        Some(n) => PreviewSize::parse(n.as_str()),
        None => Ok(PreviewSize::Screen),
    }
}

/// The star limit of an annotated rendering: 1000 when the request names none.
pub fn requested_max_stars(max_stars: Option<u32>) -> (r: u32)
    ensures
        r == match max_stars {
            Some(m) => m,
            None => 1000u32,
        },
{
    match max_stars {
        Some(m) => m,
        None => 1000,
    }
}

/// Products that a pre-generation pass can render for each image.
#[derive(Clone, Copy, Debug, PartialEq, Eq, Structural)]
pub enum PregenFormat {
    Preview(PreviewSize),
    Annotated,
}

/// Which products a pass renders, and how long rendered ones are kept.
#[derive(Clone, Copy, Debug, PartialEq, Eq, Structural)]
pub struct PregenSettings {
    pub screen_enabled: bool,
    pub large_enabled: bool,
    pub original_enabled: bool,
    pub annotated_enabled: bool,
    /// Age, in seconds, after which a cached product is rendered again.
    pub cache_expiry_secs: u64,
}

/// The enabled products, in the order a pass renders them.
pub open spec fn formats_of(s: PregenSettings) -> Seq<PregenFormat> {
    (if s.screen_enabled { seq![PregenFormat::Preview(PreviewSize::Screen)] } else { seq![] })
        + (if s.large_enabled { seq![PregenFormat::Preview(PreviewSize::Large)] } else { seq![] })
        + (if s.original_enabled { seq![PregenFormat::Preview(PreviewSize::Original)] } else { seq![] })
        + (if s.annotated_enabled { seq![PregenFormat::Annotated] } else { seq![] })
}

/// The enabled products, in the order a pass renders them: screen, large,
/// original, annotated.
pub fn enabled_formats(s: &PregenSettings) -> (r: Vec<PregenFormat>)
    ensures
        r@ == formats_of(*s),
{
    let mut r: Vec<PregenFormat> = Vec::new();
    if s.screen_enabled {
        r.push(PregenFormat::Preview(PreviewSize::Screen));
    }
    if s.large_enabled {
        r.push(PregenFormat::Preview(PreviewSize::Large));
    }
    if s.original_enabled {
        r.push(PregenFormat::Preview(PreviewSize::Original));
    }
    if s.annotated_enabled {
        r.push(PregenFormat::Annotated);
    }
    assert(r@ =~= formats_of(*s));
    r
}

/// Whether a pass renders a product again: when it is not cached, or its
/// age (none when unknown) is not below the expiry.
pub fn should_render(age_secs: Option<u64>, expiry_secs: u64) -> (r: bool)
    ensures
        r == !(age_secs matches Some(a) && a < expiry_secs),
{
    match age_secs {
        Some(a) => a >= expiry_secs,
        None => true,
    }
}

/// What happened to one product in a pass.
#[derive(Clone, Copy, Debug, PartialEq, Eq, Structural)]
pub enum PregenOutcome {
    Generated,
    Skipped,
    Failed,
}

/// Counts a pass reports.
#[derive(Clone, Copy, Debug, PartialEq, Eq, Structural)]
pub struct CycleTally {
    pub processed: usize,
    pub generated: usize,
    pub skipped: usize,
    pub errors: usize,
}

impl CycleTally {
    /// A pass that has done nothing yet.
    pub fn new() -> (r: Self)
        ensures
            r == (CycleTally { processed: 0, generated: 0, skipped: 0, errors: 0 }),
    {
        CycleTally { processed: 0, generated: 0, skipped: 0, errors: 0 }
    }

    /// Counts one product's outcome; counts stop at the largest `usize`.
    pub fn record(&mut self, outcome: PregenOutcome)
        ensures
            final(self).processed == old(self).processed,
            final(self).generated == if outcome == PregenOutcome::Generated {
                old(self).generated.saturating_add(1)
            } else {
                old(self).generated
            },
            final(self).skipped == if outcome == PregenOutcome::Skipped {
                old(self).skipped.saturating_add(1)
            } else {
                old(self).skipped
            },
            final(self).errors == if outcome == PregenOutcome::Failed {
                old(self).errors.saturating_add(1)
            } else {
                old(self).errors
            },
    {
        match outcome {
            PregenOutcome::Generated => self.generated = self.generated.saturating_add(1),
            PregenOutcome::Skipped => self.skipped = self.skipped.saturating_add(1),
            PregenOutcome::Failed => self.errors = self.errors.saturating_add(1),
        }
    }

    /// Counts one image as done.
    pub fn finish_image(&mut self)
        ensures
            *final(self) == (CycleTally { processed: old(self).processed.saturating_add(1), ..*old(self) }),
    {
        self.processed = self.processed.saturating_add(1);
    }
}

} // verus!
