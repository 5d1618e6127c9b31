//! Background: a pattern whose dark pixels are shown in a colour.

use vstd::prelude::*;
use vstd::string::StringSliceAdditionalSpecFns;

use crate::beat::BeatCount;
use crate::color::Rgb;
use crate::error::PatternError;
use crate::patterns::{
    BackgroundView, LedPattern, Pattern, PatternCommand, PatternKind, PatternView, backed,
    pattern_with_args_from_command, spec_background_from,
};
use crate::patterns::ascii::{COMMA};
use crate::patterns::command::hex_rgb;
use crate::util::fill::colors;

verus! {

/// The background pattern.
pub struct Background {
    rgbs: Vec<Rgb>,
    color: Rgb,
    pattern: Box<Pattern>,
}

fn fill_dark(dst: &mut Vec<Rgb>, src: &[Rgb], color: Rgb)
    requires
        old(dst)@.len() == src@.len(),
    ensures
        final(dst)@ == backed(src@, color),
{
    let n: usize = src.len();
    let mut i: usize = 0;
    while i < n
        invariant
            i <= n,
            src@.len() == n,
            dst@.len() == n,
            forall|j: int| 0 <= j < i ==> dst@[j] == backed(src@, color)[j],
        decreases n - i,
    {
        let pixel = src[i];
        if pixel.r == 0 && pixel.g == 0 && pixel.b == 0 {
            dst[i] = color;
        } else {
            dst[i] = pixel;
        }
        i += 1;
    }
    assert(dst@ =~= backed(src@, color));
}

impl View for Background {
    type V = BackgroundView;

    open spec fn view(&self) -> BackgroundView {
        self.model()
    }
}

impl Background {
    /// The background as a mathematical value.
    pub closed spec fn model(&self) -> BackgroundView
        decreases self,
    {
        BackgroundView {
            rgbs: self.rgbs@,
            color: self.color,
            pattern: Box::new((*self.pattern).model()),
        }
    }

    /// A background of the colour `color` behind `pattern`, dark until
    /// the first frame.
    pub fn new(pattern: Box<Pattern>, color: Rgb) -> (out: Background)
        requires
            pattern.wf(),
        ensures
            out@ == (BackgroundView {
                rgbs: Seq::new(pattern@.frame().len(), |i: int| Rgb::black()),
                color,
                pattern: Box::new(pattern@),
            }),
            out.wf(),
    {
        let n: usize = pattern.size();
        Background { rgbs: colors(n, Rgb { r: 0, g: 0, b: 0 }), color, pattern }
    }
}

impl PatternCommand for Background {
    open spec fn wf(&self) -> bool {
        PatternView::Background(self@).wf()
    }

    open spec fn frame(&self) -> Seq<Rgb> {
        self@.rgbs
    }

    fn execute_command(&mut self, command: &str) -> (out: Result<(), PatternError>)
        ensures
            (PatternView::Background(final(self)@), out) == PatternView::Background(
                old(self)@,
            ).execute(command.spec_bytes()),
    {
        self.execute_bytes(command.as_bytes())
    }

    /// Hands the command on to the pattern in front.
    fn execute_bytes(&mut self, command: &[u8]) -> (out: Result<(), PatternError>)
        ensures
            (PatternView::Background(final(self)@), out) == PatternView::Background(
                old(self)@,
            ).execute(command@),
        decreases command@.len(), *old(self), 0int,
    {
        self.pattern.execute_bytes(command)
    }
}

impl LedPattern for Background {
    fn next(&mut self) -> (out: &[Rgb])
        ensures
            PatternView::Background(final(self)@) == PatternView::Background(old(self)@).next(),
        decreases *old(self),
    {
        self.pattern.next();
        fill_dark(&mut self.rgbs, self.pattern.rgbs(), self.color);
        self.rgbs.as_slice()
    }

    fn rgbs(&self) -> (out: &[Rgb]) {
        self.rgbs.as_slice()
    }

    fn beat(&mut self, beat_info: &BeatCount)
        ensures
            PatternView::Background(final(self)@) == PatternView::Background(old(self)@).beat(
                *beat_info,
            ),
        decreases *old(self),
    {
        self.pattern.beat(beat_info);
    }

    fn size(&self) -> (out: usize) {
        self.rgbs.len()
    }

    fn from_str(args: &str, seed: u32) -> (out: Result<Self, PatternError>)
        ensures
            match spec_background_from(args.spec_bytes(), seed) {
                Ok(v) => out matches Ok(p) && p@ == v,
                Err(e) => out matches Err(err) && err == e,
            },
    {
        Self::from_bytes(args.as_bytes(), seed)
    }

    /// Reads `kind(args),#RRGGBB`: the pattern in front and the colour.
    fn from_bytes(args: &[u8], seed: u32) -> (out: Result<Self, PatternError>)
        ensures
            match spec_background_from(args@, seed) {
                Ok(v) => out matches Ok(p) && p@ == v,
                Err(e) => out matches Err(err) && err == e,
            },
        decreases args@.len(), 0int,
    {
        let spec = pattern_with_args_from_command(args)?;
        let kind = PatternKind::try_from(spec.kind)?;
        let pattern = kind.to_pattern(spec.args, seed)?;
        if spec.rest.len() == 0 || spec.rest[0] != COMMA {
            return Err(PatternError::MissingComma);
        }
        let color_text = vstd::slice::slice_subrange(spec.rest, 1, spec.rest.len());
        assert(color_text@ =~= args@.skip(args@.len() - spec.rest@.len() + 1));
        let (_, color) = hex_rgb(color_text)?;
        Ok(Background::new(Box::new(pattern), color))
    }
}

} // verus!
