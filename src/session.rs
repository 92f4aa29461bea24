use vstd::prelude::*;
use vstd::string::StringSliceAdditionalSpecFns;

verus! {

/// Settings of a simulation run.
pub struct Arguments {
    /// Number of draws to simulate.
    pub num_sim: u32,
    /// Path of the pool configuration file.
    pub file_path: String,
    /// Whether to run an interactive session.
    pub interactive: bool,
}

/// Where an interactive session stands: choosing a mode, or drawing on the second character
/// banner.
#[derive(Clone, Copy, Debug, PartialEq, Eq, Structural)]
pub enum InteractiveStage {
    Start,
    RealModeCharacterPool2,
}

/// One line of user input, read as a command.
#[derive(Clone, Copy, Debug, PartialEq, Eq, Structural)]
pub enum InteractiveCommand {
    Quit,
    Number(u32),
    Other,
}

/// An ASCII whitespace byte: tab, line feed, vertical tab, form feed, carriage return, space.
pub open spec fn is_space(b: u8) -> bool {
    b == 32 || (9 <= b && b <= 13)
}

pub open spec fn is_digit(b: u8) -> bool {
    48 <= b && b <= 57
}

pub open spec fn trim_start(s: Seq<u8>) -> Seq<u8>
    decreases s.len(),
{
    if s.len() > 0 && is_space(s[0]) {
        trim_start(s.drop_first())
    } else {
        s
    }
}

pub open spec fn trim_end(s: Seq<u8>) -> Seq<u8>
    decreases s.len(),
{
    if s.len() > 0 && is_space(s.last()) {
        trim_end(s.drop_last())
    } else {
        s
    }
}

/// The decimal value of a sequence of digits.
pub open spec fn digits_value(d: Seq<u8>) -> int
    decreases d.len(),
{
    if d.len() == 0 {
        0
    } else {
        digits_value(d.drop_last()) * 10 + (d.last() - 48)
    }
}

pub open spec fn all_digits(d: Seq<u8>) -> bool {
    forall|i: int| 0 <= i < d.len() ==> is_digit(#[trigger] d[i])
}

/// An unsigned decimal number: an optional `+`, then one or more digits, of a value that
/// fits in `u32`.
pub open spec fn parse_u32(t: Seq<u8>) -> Option<u32> {
    let d = if t.len() > 0 && t[0] == 43 {
        t.drop_first()
    } else {
        t
    };
    if d.len() > 0 && all_digits(d) && digits_value(d) <= u32::MAX {
        Some(digits_value(d) as u32)
    } else {
        None
    }
}

/// The command a line stands for, once trimmed of surrounding whitespace: `Quit` when it
/// starts with `q`, a number when it is one, `Other` otherwise.
pub open spec fn command_of(line: Seq<u8>) -> InteractiveCommand {
    let t = trim_end(trim_start(line));
    if t.len() > 0 && t[0] == 113 {
        InteractiveCommand::Quit
    } else {
        match parse_u32(t) {
            Some(n) => InteractiveCommand::Number(n),
            None => InteractiveCommand::Other,
        }
    }
}

proof fn lemma_digits_value_prefix(d: Seq<u8>, k: int)
    requires
        all_digits(d),
        0 <= k <= d.len(),
    ensures
        0 <= digits_value(d.subrange(0, k)) <= digits_value(d),
    decreases d.len(),
{
    if k < d.len() {
        assert(all_digits(d.drop_last()));
        lemma_digits_value_prefix(d.drop_last(), k);
        assert(d.drop_last().subrange(0, k) =~= d.subrange(0, k));
        lemma_digits_value_prefix(d.drop_last(), d.len() - 1);
        assert(d.drop_last().subrange(0, d.len() - 1) =~= d.drop_last());
    } else {
        assert(d.subrange(0, k) =~= d);
        if d.len() > 0 {
            assert(all_digits(d.drop_last()));
            lemma_digits_value_prefix(d.drop_last(), d.len() - 1);
            assert(d.drop_last().subrange(0, d.len() - 1) =~= d.drop_last());
        }
    }
}

impl InteractiveCommand {
    /// Reads one line of input as a command.
    pub fn from_line(line: &str) -> (r: InteractiveCommand)
        ensures
            r == command_of(line.spec_bytes()),
    {
        let bytes = line.as_bytes();
        let ghost s = bytes@;
        let len = bytes.len();
        let mut lo: usize = 0;
        assert(s.subrange(0, len as int) =~= s);
        while lo < len && (bytes[lo] == 32 || (9 <= bytes[lo] && bytes[lo] <= 13))
            invariant
                s == bytes@,
                len == s.len(),
                lo <= len,
                trim_start(s) == trim_start(s.subrange(lo as int, len as int)),
            decreases len - lo,
        {
            assert(s.subrange(lo as int, len as int).drop_first() =~= s.subrange(
                lo + 1,
                len as int,
            ));
            lo = lo + 1;
        }
        assert(trim_start(s) == s.subrange(lo as int, len as int));
        let mut hi: usize = len;
        while hi > lo && (bytes[hi - 1] == 32 || (9 <= bytes[hi - 1] && bytes[hi - 1] <= 13))
            invariant
                s == bytes@,
                len == s.len(),
                lo <= hi <= len,
                trim_end(s.subrange(lo as int, len as int)) == trim_end(
                    s.subrange(lo as int, hi as int),
                ),
            decreases hi - lo,
        {
            assert(s.subrange(lo as int, hi as int).drop_last() =~= s.subrange(
                lo as int,
                hi - 1,
            ));
            hi = hi - 1;
        }
        let ghost t = s.subrange(lo as int, hi as int);
        assert(trim_end(trim_start(s)) == t);
        if hi > lo && bytes[lo] == 113 {
            return InteractiveCommand::Quit;
        }
        let start: usize = if hi > lo && bytes[lo] == 43 {
            lo + 1
        } else {
            lo
        };
        let ghost d = s.subrange(start as int, hi as int);
        assert(d =~= (if t.len() > 0 && t[0] == 43 {
            t.drop_first()
        } else {
            t
        }));
        if start == hi {
            return InteractiveCommand::Other;
        }
        let mut value: u64 = 0;
        let mut i: usize = start;
        assert(s.subrange(start as int, start as int) =~= Seq::<u8>::empty());
        assert(digits_value(Seq::<u8>::empty()) == 0);
        while i < hi
            invariant
                s == bytes@,
                len == s.len(),
                start <= i <= hi <= len,
                d == s.subrange(start as int, hi as int),
                s == line.spec_bytes(),
                trim_end(trim_start(s)) == t,
                !(t.len() > 0 && t[0] == 113),
                d == (if t.len() > 0 && t[0] == 43 {
                    t.drop_first()
                } else {
                    t
                }),
                all_digits(s.subrange(start as int, i as int)),
                value == digits_value(s.subrange(start as int, i as int)),
                value <= u32::MAX,
            decreases hi - i,
        {
            let b = bytes[i];
            if b < 48 || b > 57 {
                assert(d[i - start] == b);
                assert(!all_digits(d));
                return InteractiveCommand::Other;
            }
            let ghost prefix = s.subrange(start as int, i + 1);
            assert(prefix.drop_last() =~= s.subrange(start as int, i as int));
            assert(prefix.last() == b);
            assert(all_digits(prefix)) by {
                assert forall|k: int| 0 <= k < prefix.len() implies is_digit(#[trigger] prefix[k]) by {
                    if k < prefix.len() - 1 {
                        assert(prefix[k] == s.subrange(start as int, i as int)[k]);
                    }
                }
            }
            value = value * 10 + (b - 48) as u64;
            assert(value == digits_value(prefix));
            i = i + 1;
            if value > u32::MAX as u64 {
                proof {
                    if all_digits(d) {
                        assert(d.subrange(0, (i - start) as int) =~= prefix);
                        lemma_digits_value_prefix(d, (i - start) as int);
                    }
                }
                return InteractiveCommand::Other;
            }
        }
        assert(s.subrange(start as int, i as int) =~= d);
        InteractiveCommand::Number(value as u32)
    }
}

/// What the session asks its driver to do next.
#[derive(Clone, Copy, Debug, PartialEq, Eq, Structural)]
pub enum InteractiveAction {
    Exit,
    Continue,
    Draw(u32),
}

/// State of an interactive session.
pub struct InteractiveState {
    pub stage: InteractiveStage,
}

/// The session's transition on a command: quitting ends it from either stage; choosing mode 1
/// at the start enters drawing; a number while drawing asks for that many draws; anything else
/// leaves the session as it was.
pub open spec fn next_stage(stage: InteractiveStage, command: InteractiveCommand) -> (
    InteractiveStage,
    InteractiveAction,
) {
    match (stage, command) {
        (_, InteractiveCommand::Quit) => (stage, InteractiveAction::Exit),
        (InteractiveStage::Start, InteractiveCommand::Number(1)) => (
            InteractiveStage::RealModeCharacterPool2,
            InteractiveAction::Continue,
        ),
        (InteractiveStage::RealModeCharacterPool2, InteractiveCommand::Number(n)) => (
            stage,
            InteractiveAction::Draw(n),
        ),
        _ => (stage, InteractiveAction::Continue),
    }
}

impl InteractiveState {
    pub fn new() -> (r: InteractiveState)
        ensures
            r.stage == InteractiveStage::Start,
    {
        InteractiveState { stage: InteractiveStage::Start }
    }

    /// Takes one command and says what to do next.
    pub fn handle(&mut self, command: InteractiveCommand) -> (r: InteractiveAction)
        ensures
            (final(self).stage, r) == next_stage(old(self).stage, command),
    {
        match command {
            InteractiveCommand::Quit => InteractiveAction::Exit,
            InteractiveCommand::Number(n) => match self.stage {
                InteractiveStage::Start => {
                    if n == 1 {
                        self.stage = InteractiveStage::RealModeCharacterPool2;
                    }
                    InteractiveAction::Continue
                },
                InteractiveStage::RealModeCharacterPool2 => InteractiveAction::Draw(n),
            },
            InteractiveCommand::Other => InteractiveAction::Continue,
        }
    }
}

} // verus!
