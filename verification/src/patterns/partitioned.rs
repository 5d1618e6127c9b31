//! The compositor: patterns side by side in one buffer.

use vstd::prelude::*;
use vstd::slice::slice_subrange;
use vstd::string::StringSliceAdditionalSpecFns;

use crate::beat::BeatCount;
use crate::color::Rgb;
use crate::error::PatternError;
use crate::patterns::{
    EntryView, LedPattern, PartitionedView, Pattern, PatternCommand, PatternView, blit, composed,
    spec_partitioned_from,
};
use crate::patterns::ascii::{
    COMMA, DIGIT_0, DIGIT_9, LOWER_A, LOWER_B, LOWER_C, LOWER_G, LOWER_N, LOWER_P, LOWER_R, LOWER_S,
    SEMICOLON, SPACE, UPPER_B, UPPER_C, UPPER_R, UPPER_S,
};
use crate::patterns::command::{CharClass, explicit_range, parse_bytes, scan};
use crate::util::fill::colors;
use crate::util::random::Rng;

verus! {

/// A pattern with the pixels it renders into and its switches.
pub struct PatternSection {
    range: (usize, usize),
    pattern: Pattern,
    render: bool,
    beat: bool,
}

/// The compositor.
pub struct PartitionedPatterns {
    rgbs: Vec<Rgb>,
    patterns: Vec<PatternSection>,
    rng: Rng,
}

impl PatternSection {
    /// The entry as a mathematical value.
    pub closed spec fn model(&self) -> EntryView
        decreases self,
    {
        EntryView {
            range: self.range,
            pattern: self.pattern.model(),
            render: self.render,
            beat: self.beat,
        }
    }
}

impl View for PatternSection {
    type V = EntryView;

    open spec fn view(&self) -> EntryView {
        self.model()
    }
}

impl View for PartitionedPatterns {
    type V = PartitionedView;

    open spec fn view(&self) -> PartitionedView {
        self.model()
    }
}

fn copy_into(buf: &mut Vec<Rgb>, start: usize, end: usize, frame: &[Rgb])
    requires
        start <= end <= old(buf)@.len(),
        end - start <= frame@.len(),
    ensures
        final(buf)@ == blit(old(buf)@, start as int, end as int, frame@),
{
    let mut q: usize = start;
    while q < end
        invariant
            start <= q <= end <= buf@.len(),
            end - start <= frame@.len(),
            buf@.len() == old(buf)@.len(),
            forall|j: int| start <= j < q ==> buf@[j] == frame@[j - start],
            forall|j: int| 0 <= j < start || q <= j < buf@.len() ==> buf@[j] == old(buf)@[j],
        decreases end - q,
    {
        buf[q] = frame[q - start];
        q += 1;
    }
    assert(buf@ =~= blit(old(buf)@, start as int, end as int, frame@));
}

impl PartitionedPatterns {
    /// The compositor as a mathematical value.
    pub closed spec fn model(&self) -> PartitionedView
        decreases self,
    {
        PartitionedView {
            rgbs: self.rgbs@,
            patterns: Seq::new(
                self.patterns@.len(),
                |i: int|
                    if 0 <= i < self.patterns@.len() {
                        self.patterns@[i].model()
                    } else {
                        arbitrary()
                    },
            ),
            rng: self.rng@,
        }
    }

    /// A compositor over `n_leds` dark pixels, without entries.
    pub fn new(n_leds: usize) -> (out: PartitionedPatterns)
        ensures
            out@ == (PartitionedView {
                rgbs: Seq::new(n_leds as nat, |i: int| Rgb::black()),
                patterns: Seq::empty(),
                rng: Rng::seed_state(0),
            }),
            out.wf(),
    {
        let out = PartitionedPatterns {
            rgbs: colors(n_leds, Rgb { r: 0, g: 0, b: 0 }),
            patterns: Vec::new(),
            rng: Rng::new(0),
        };
        assert(out@.patterns =~= Seq::empty());
        out
    }
}

impl PartitionedPatterns {
    /// Starts the generator that seeds new patterns afresh.
    pub fn reseed(&mut self, seed: u32)
        ensures
            final(self)@ == (PartitionedView { rng: Rng::seed_state(seed), ..old(self)@ }),
    {
        self.rng = Rng::new(seed);
    }

    /// The number of entries.
    pub fn len(&self) -> (out: usize)
        ensures
            out == self@.patterns.len(),
    {
        self.patterns.len()
    }

    /// The range of entry `index` and whether it renders and listens to
    /// beats, or `None` where there is no such entry.
    pub fn entry(&self, index: usize) -> (out: Option<((usize, usize), bool, bool)>)
        ensures
            index >= self@.patterns.len() ==> out is None,
            index < self@.patterns.len() ==> out == Some(
                (
                    self@.patterns[index as int].range,
                    self@.patterns[index as int].render,
                    self@.patterns[index as int].beat,
                ),
            ),
    {
        if index < self.patterns.len() {
            let e = &self.patterns[index];
            Some((e.range, e.render, e.beat))
        } else {
            None
        }
    }

    /// The pattern of entry `index`, or `None` where there is no such
    /// entry.
    pub fn pattern(&self, index: usize) -> (out: Option<&Pattern>)
        ensures
            index >= self@.patterns.len() ==> out is None,
            index < self@.patterns.len() ==> (out matches Some(p) && p@
                == self@.patterns[index as int].pattern),
    {
        if index < self.patterns.len() {
            Some(&self.patterns[index].pattern)
        } else {
            None
        }
    }

    fn next_start(&self) -> (out: usize)
        ensures
            out == self@.next_start(),
    {
        let n: usize = self.patterns.len();
        if n == 0 {
            0
        } else {
            self.patterns[n - 1].range.1
        }
    }

    /// Appends an entry that renders and listens to beats. Without a
    /// range it takes the pixels behind the last entry, as many as the
    /// pattern has. The entry has to fit: its range lies within the buffer
    /// and is no longer than the pattern.
    pub fn add(&mut self, pattern: Pattern, range: Option<(usize, usize)>)
        requires
            old(self).wf(),
            pattern.wf(),
            match range {
                Some(r) => r.0 <= r.1 <= old(self)@.rgbs.len() && r.1 - r.0
                    <= pattern@.frame().len(),
                None => old(self)@.next_start() + pattern@.frame().len() <= old(
                    self,
                )@.rgbs.len(),
            },
        ensures
            final(self)@ == old(self)@.added(
                pattern@,
                match range {
                    Some(r) => r,
                    None => (
                        old(self)@.next_start(),
                        (old(self)@.next_start() + pattern@.frame().len()) as usize,
                    ),
                },
            ),
            final(self).wf(),
    {
        let range: (usize, usize) = match range {
            Some(r) => r,
            None => {
                let start: usize = self.next_start();
                let total: usize = self.rgbs.len();
                assert(start + pattern@.frame().len() <= total);
                (start, start + pattern.size())
            },
        };
        let ghost entry = EntryView { range, pattern: pattern@, render: true, beat: true };
        self.patterns.push(PatternSection { range, pattern, render: true, beat: true });
        assert(self@.patterns =~= old(self)@.patterns.push(entry));
        assert forall|i: int| 0 <= i < self@.patterns.len() implies (#[trigger] self@.patterns[
            i
        ]).pattern.wf() && self@.patterns[i].fits(self@.rgbs.len()) by {
            if i < old(self)@.patterns.len() {
                assert(self@.patterns[i] == old(self)@.patterns[i]);
            }
        }
    }

    fn replace(&mut self, index: usize, text: &[u8]) -> (out: Result<(), PatternError>)
        requires
            old(self).wf(),
            index < old(self)@.patterns.len(),
        ensures
            (final(self)@, out) == old(self)@.replace(index as int, text@),
            final(self).wf(),
            final(self)@.rgbs.len() == old(self)@.rgbs.len(),
    {
        let mut rng = self.rng;
        let seed: u32 = rng.random();
        let pattern = Pattern::from_bytes(text, seed)?;
        assert(old(self)@.patterns[index as int] == old(self).patterns@[index as int]@);
        let start: usize = self.patterns[index].range.0;
        let end: usize = self.patterns[index].range.1;
        if pattern.size() < end - start {
            return Err(PatternError::PatternTooSmall);
        }
        let ghost fresh = pattern@;
        self.patterns[index].pattern = pattern;
        self.rng = rng;
        assert(self@.patterns =~= old(self)@.patterns.update(
            index as int,
            EntryView { pattern: fresh, ..old(self)@.patterns[index as int] },
        ));
        assert forall|i: int| 0 <= i < self@.patterns.len() implies (#[trigger] self@.patterns[
            i
        ]).pattern.wf() && self@.patterns[i].fits(self@.rgbs.len()) by {
            assert(old(self)@.patterns[i].fits(old(self)@.rgbs.len()));
        }
        Ok(())
    }

    fn append(&mut self, input: &[u8]) -> (out: Result<(), PatternError>)
        requires
            old(self).wf(),
        ensures
            (final(self)@, out) == old(self)@.append(input@),
            final(self).wf(),
            final(self)@.rgbs.len() == old(self)@.rgbs.len(),
    {
        let from: usize = scan(input, 0, CharClass::Only(SPACE));
        let range_end: usize = scan(input, from, CharClass::RangeChar);
        let range_text = slice_subrange(input, from, range_end);
        let spec_at: usize = if range_end < input.len() && input[range_end] == COMMA {
            range_end + 1
        } else {
            range_end
        };
        let is_auto: bool = range_text.len() == 1 && range_text[0] == LOWER_N;
        proof {
            if is_auto {
                assert(range_text@ =~= seq![LOWER_N]);
            } else {
                assert(seq![LOWER_N].len() == 1 && seq![LOWER_N][0] == LOWER_N);
            }
        }
        let named: Option<(usize, usize)> = if is_auto {
            None
        } else {
            let (start, end) = explicit_range(range_text)?;
            Some((start as usize, end as usize))
        };
        let mut rng = self.rng;
        let seed: u32 = rng.random();
        let text = slice_subrange(input, spec_at, input.len());
        assert(text@ == input@.skip(spec_at as int));
        let pattern = Pattern::from_bytes(text, seed)?;
        let size: usize = pattern.size();
        let total: usize = self.rgbs.len();
        let range: (usize, usize) = match named {
            None => {
                let start: usize = self.next_start();
                if size > total || start > total - size {
                    return Err(PatternError::RangeOutOfBounds);
                }
                (start, start + size)
            },
            Some((start, end)) => {
                if end > total {
                    return Err(PatternError::RangeOutOfBounds);
                }
                if end - start > size {
                    return Err(PatternError::PatternTooSmall);
                }
                (start, end)
            },
        };
        self.rng = rng;
        assert(self.wf()) by {
            assert forall|i: int| 0 <= i < self@.patterns.len() implies (#[trigger] self@.patterns[
                i
            ]).pattern.wf() && self@.patterns[i].fits(self@.rgbs.len()) by {
                assert(self@.patterns[i] == old(self)@.patterns[i]);
            }
        }
        self.add(pattern, Some(range));
        Ok(())
    }

    fn set_switches(&mut self, index: usize, render: bool, beat: bool)
        requires
            old(self).wf(),
            index < old(self)@.patterns.len(),
        ensures
            final(self)@ == old(self)@.with_entry(
                index as int,
                EntryView { render, beat, ..old(self)@.patterns[index as int] },
            ),
            final(self).wf(),
    {
        assert(old(self)@.patterns[index as int] == old(self).patterns@[index as int]@);
        self.patterns[index].render = render;
        self.patterns[index].beat = beat;
        assert(self@.patterns =~= old(self)@.patterns.update(
            index as int,
            EntryView { render, beat, ..old(self)@.patterns[index as int] },
        ));
        assert forall|i: int| 0 <= i < self@.patterns.len() implies (#[trigger] self@.patterns[
            i
        ]).pattern.wf() && self@.patterns[i].fits(self@.rgbs.len()) by {
            assert(old(self)@.patterns[i].fits(old(self)@.rgbs.len()));
        }
    }

    fn remove(&mut self, index: usize)
        requires
            old(self).wf(),
            index < old(self)@.patterns.len(),
        ensures
            final(self)@ == (PartitionedView {
                patterns: old(self)@.patterns.remove(index as int),
                ..old(self)@
            }),
            final(self).wf(),
    {
        self.patterns.remove(index);
        assert(self@.patterns =~= old(self)@.patterns.remove(index as int));
        assert forall|i: int| 0 <= i < self@.patterns.len() implies (#[trigger] self@.patterns[
            i
        ]).pattern.wf() && self@.patterns[i].fits(self@.rgbs.len()) by {
            if i < index {
                assert(old(self)@.patterns[i].fits(old(self)@.rgbs.len()));
            } else {
                assert(old(self)@.patterns[i + 1].fits(old(self)@.rgbs.len()));
            }
        }
    }

    /// Carries out one command.
    fn execute_one(&mut self, c: &[u8]) -> (out: Result<(), PatternError>)
        requires
            old(self).wf(),
        ensures
            (final(self)@, out) == old(self)@.execute_one(c@),
            final(self).wf(),
            final(self)@.rgbs.len() == old(self)@.rgbs.len(),
        decreases c@.len(), *old(self), 0int,
    {
        if c.len() == 0 {
            return Err(PatternError::EmptyCommand);
        }
        let letter: u8 = c[0];
        if letter == LOWER_P {
            if c.len() < 2 {
                return Err(PatternError::Truncated);
            }
            if !(DIGIT_0 <= c[1] && c[1] <= DIGIT_9) {
                return Err(PatternError::InvalidNumber);
            }
            let index: usize = (c[1] - DIGIT_0) as usize;
            if index >= self.patterns.len() {
                return Err(PatternError::IndexOutOfRange { index, len: self.patterns.len() });
            }
            if c.len() < 3 {
                return Err(PatternError::Truncated);
            }
            assert(old(self)@.patterns[index as int] == old(self).patterns@[index as int]@);
            let sub: u8 = c[2];
            let rest = slice_subrange(c, 3, c.len());
            assert(rest@ == c@.skip(3));
            if sub == LOWER_C {
                let result = self.patterns[index].pattern.execute_bytes(rest);
                proof {
                    let inner = self.patterns@[index as int].pattern@;
                    let expected = old(self)@.with_pattern(index as int, inner);
                    assert(self@.patterns =~= expected.patterns);
                    assert forall|i: int| 0 <= i < self@.patterns.len() implies (
                    #[trigger] self@.patterns[i]).pattern.wf() && self@.patterns[i].fits(
                        self@.rgbs.len(),
                    ) by {
                        assert(old(self)@.patterns[i].fits(old(self)@.rgbs.len()));
                    }
                }
                result
            } else if sub == LOWER_S {
                let beat: bool = self.patterns[index].beat;
                self.set_switches(index, false, beat);
                Ok(())
            } else if sub == UPPER_S {
                let beat: bool = self.patterns[index].beat;
                self.set_switches(index, true, beat);
                Ok(())
            } else if sub == LOWER_B {
                let render: bool = self.patterns[index].render;
                self.set_switches(index, render, false);
                Ok(())
            } else if sub == UPPER_B {
                let render: bool = self.patterns[index].render;
                self.set_switches(index, render, true);
                Ok(())
            } else if sub == UPPER_R {
                self.remove(index);
                Ok(())
            } else if sub == UPPER_C {
                self.replace(index, rest)
            } else {
                Err(PatternError::InvalidSubcommand { letter: sub })
            }
        } else if letter == LOWER_G || letter == LOWER_R {
            Ok(())
        } else if letter == LOWER_A {
            let input = slice_subrange(c, 1, c.len());
            assert(input@ == c@.skip(1));
            self.append(input)
        } else {
            Err(PatternError::InvalidCommand { letter })
        }
    }
}

impl PatternCommand for PartitionedPatterns {
    open spec fn wf(&self) -> bool {
        PatternView::Partitioned(self@).wf()
    }

    open spec fn frame(&self) -> Seq<Rgb> {
        self@.rgbs
    }

    fn execute_command(&mut self, command: &str) -> (out: Result<(), PatternError>)
        ensures
            (final(self)@, out) == old(self)@.execute(command.spec_bytes()),
    {
        self.execute_bytes(command.as_bytes())
    }

    /// Carries out the commands of a list separated by `;`, one after the
    /// other, and stops at the first that fails.
    fn execute_bytes(&mut self, command: &[u8]) -> (out: Result<(), PatternError>)
        ensures
            (final(self)@, out) == old(self)@.execute(command@),
        decreases command@.len(), *old(self), 1int,
    {
        let mut rest: &[u8] = command;
        loop
            invariant
                self.wf(),
                self@.rgbs.len() == old(self)@.rgbs.len(),
                old(self)@.execute(command@) == self@.execute(rest@),
                rest@.len() <= command@.len(),
                rest@.len() == command@.len() ==> *self == *old(self),
            decreases rest@.len(),
        {
            let end: usize = scan(rest, 0, CharClass::Except(SEMICOLON));
            let token = slice_subrange(rest, 0, end);
            assert(token@ == rest@.take(end as int));
            let result = self.execute_one(token);
            if result.is_err() || end >= rest.len() {
                return result;
            }
            let tail = slice_subrange(rest, end + 1, rest.len());
            assert(tail@ == rest@.skip(end + 1));
            rest = tail;
        }
    }
}

impl LedPattern for PartitionedPatterns {
    fn next(&mut self) -> (out: &[Rgb])
        ensures
            PatternView::Partitioned(final(self)@) == PatternView::Partitioned(old(self)@).next(),
        decreases *old(self),
    {
        let ghost before = self@;
        let ghost target = PatternView::Partitioned(before).next()->Partitioned_0;
        let n: usize = self.patterns.len();
        assert forall|j: int| 0 <= j < n implies (#[trigger] self.patterns@[j]).pattern.wf()
            && self.patterns@[j]@.fits(self.rgbs@.len()) by {
            assert(before.patterns[j] == self.patterns@[j]@);
        }
        let mut i: usize = 0;
        while i < n
            invariant
                i <= n,
                self.patterns@.len() == n,
                old(self)@ == before,
                before.patterns.len() == n,
                target == PatternView::Partitioned(before).next()->Partitioned_0,
                self.rng@ == before.rng,
                self.rgbs@.len() == before.rgbs.len(),
                self.rgbs@ == composed(before.rgbs, target.patterns, i as int),
                forall|j: int| 0 <= j < i ==> (#[trigger] self.patterns@[j])@ == target.patterns[j],
                forall|j: int| i <= j < n ==> self.patterns@[j] == old(self).patterns@[j],
                forall|j: int|
                    0 <= j < n ==> (#[trigger] self.patterns@[j]).pattern.wf()
                        && self.patterns@[j]@.fits(self.rgbs@.len()),
            decreases n - i,
        {
            if self.patterns[i].render {
                self.patterns[i].pattern.next();
                let start: usize = self.patterns[i].range.0;
                let end: usize = self.patterns[i].range.1;
                copy_into(&mut self.rgbs, start, end, self.patterns[i].pattern.rgbs());
            }
            i += 1;
        }
        assert(self@.patterns =~= target.patterns);
        self.rgbs.as_slice()
    }

    fn rgbs(&self) -> (out: &[Rgb]) {
        self.rgbs.as_slice()
    }

    fn beat(&mut self, beat_info: &BeatCount)
        ensures
            PatternView::Partitioned(final(self)@) == PatternView::Partitioned(old(self)@).beat(
                *beat_info,
            ),
        decreases *old(self),
    {
        let ghost before = self@;
        let ghost target = PatternView::Partitioned(before).beat(*beat_info)->Partitioned_0;
        let n: usize = self.patterns.len();
        assert forall|j: int| 0 <= j < n implies (#[trigger] self.patterns@[j]).pattern.wf()
            && self.patterns@[j]@.fits(self.rgbs@.len()) by {
            assert(before.patterns[j] == self.patterns@[j]@);
        }
        let mut i: usize = 0;
        while i < n
            invariant
                i <= n,
                self.patterns@.len() == n,
                old(self)@ == before,
                before.patterns.len() == n,
                target == PatternView::Partitioned(before).beat(*beat_info)->Partitioned_0,
                self.rng@ == before.rng,
                self.rgbs@ == before.rgbs,
                forall|j: int| 0 <= j < i ==> (#[trigger] self.patterns@[j])@ == target.patterns[j],
                forall|j: int| i <= j < n ==> self.patterns@[j] == old(self).patterns@[j],
                forall|j: int|
                    0 <= j < n ==> (#[trigger] self.patterns@[j]).pattern.wf()
                        && self.patterns@[j]@.fits(self.rgbs@.len()),
            decreases n - i,
        {
            if self.patterns[i].beat {
                self.patterns[i].pattern.beat(beat_info);
            }
            i += 1;
        }
        assert(self@.patterns =~= target.patterns);
    }

    fn size(&self) -> (out: usize) {
        self.rgbs.len()
    }

    fn from_str(args: &str, seed: u32) -> (out: Result<Self, PatternError>)
        ensures
            match spec_partitioned_from(args.spec_bytes(), seed) {
                Ok(v) => out matches Ok(p) && p@ == v,
                Err(e) => out matches Err(err) && err == e,
            },
    {
        Self::from_bytes(args.as_bytes(), seed)
    }

    /// Reads the number of pixels from what stands before the first
    /// comma.
    fn from_bytes(args: &[u8], seed: u32) -> (out: Result<Self, PatternError>)
        ensures
            match spec_partitioned_from(args@, seed) {
                Ok(v) => out matches Ok(p) && p@ == v,
                Err(e) => out matches Err(err) && err == e,
            },
    {
        let end: usize = scan(args, 0, CharClass::Except(COMMA));
        let head = slice_subrange(args, 0, end);
        assert(head@ == args@.take(end as int));
        let size: usize = parse_bytes(head)?;
        let out = PartitionedPatterns {
            rgbs: colors(size, Rgb { r: 0, g: 0, b: 0 }),
            patterns: Vec::new(),
            rng: Rng::new(seed),
        };
        assert(out@.patterns =~= Seq::empty());
        Ok(out)
    }
}

} // verus!
