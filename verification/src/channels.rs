use vstd::prelude::*;

verus! {

broadcast use vstd::string::group_string_axioms;

/// UTF-16 decoding with replacement, as `String::from_utf16_lossy` does it
/// (through `char::decode_utf16`): a unit outside the surrogates is the
/// character with that code; a high surrogate followed by a low one is the
/// character they encode together; any other surrogate is unpaired and
/// becomes U+FFFD on its own.
pub open spec fn utf16_lossy_text(units: Seq<u16>) -> Seq<char>
    decreases units.len(),
{
    if units.len() == 0 {
        seq![]
    } else {
        let u = units[0] as int;
        if u < 0xD800 || u >= 0xE000 {
            seq![u as char] + utf16_lossy_text(units.drop_first())
        } else if u < 0xDC00 && units.len() >= 2 && 0xDC00 <= units[1] < 0xE000 {
            let c = 0x10000 + (u - 0xD800) * 0x400 + (units[1] - 0xDC00);
            seq![c as char] + utf16_lossy_text(units.subrange(2, units.len() as int))
        } else {
            seq!['\u{FFFD}'] + utf16_lossy_text(units.drop_first())
        }
    }
}

/// Decodes UTF-16 units with std's `String::from_utf16_lossy`; the result is
/// claimed to be `utf16_lossy_text(units)`.
#[verifier::external_body]
fn from_utf16_lossy(units: &[u16]) -> (s: String)
    ensures
        s@ == utf16_lossy_text(units@),
{
    String::from_utf16_lossy(units)
}

/// An event-log channel to subscribe to, with its query.
pub struct ElogChannel {
    pub channel_name: String,
    pub query: String,
}

/// Where the walk over the event-log channels stands: before the first call
/// of a round, after a first call that succeeded (the next call reads the
/// path), after one that failed for want of buffer (the next call reads the
/// path again), or finished.
#[derive(Clone, Copy, PartialEq, Eq, Structural, Debug)]
pub enum ChannelPhase {
    Probe,
    Read,
    Retry,
    Done,
}

/// What a call of `EvtNextChannelPath` gave back: whether it succeeded, the
/// buffer it filled, the units it reported used, and `GetLastError()` right
/// after it.
pub struct NextPathResult {
    pub ok: bool,
    pub buffer: Vec<u16>,
    pub buffer_used: u32,
    pub last_error: u32,
}

/// `GetLastError` code for a buffer that is too small.
pub const ERROR_INSUFFICIENT_BUFFER: u32 = 122;

/// `GetLastError` code once no channel is left.
pub const ERROR_NO_MORE_ITEMS: u32 = 259;

/// The phase after a call made in `phase` that gave `ok` and `last_error`.
pub open spec fn next_phase(phase: ChannelPhase, ok: bool, last_error: u32) -> ChannelPhase {
    match phase {
        ChannelPhase::Probe => if ok {
            ChannelPhase::Read
        } else if last_error == ERROR_INSUFFICIENT_BUFFER {
            ChannelPhase::Retry
        } else {
            ChannelPhase::Done
        },
        ChannelPhase::Read => if last_error == ERROR_NO_MORE_ITEMS {
            ChannelPhase::Done
        } else {
            ChannelPhase::Probe
        },
        ChannelPhase::Retry => ChannelPhase::Probe,
        ChannelPhase::Done => ChannelPhase::Done,
    }
}

/// Whether a call made in `phase` that gave `ok` read a channel path.
pub open spec fn reads_path(phase: ChannelPhase, ok: bool) -> bool {
    ok && (phase == ChannelPhase::Read || phase == ChannelPhase::Retry)
}

/// The path a reading call delivered: the units it used, less the
/// terminating NUL, decoded.
pub open spec fn path_text(buffer: Seq<u16>, buffer_used: u32) -> Seq<char> {
    utf16_lossy_text(buffer.subrange(0, buffer_used - 1))
}

/// Whether the reported length can be cut from the buffer (the enumeration
/// slices the buffer up to it, which panics otherwise).
pub open spec fn result_usable(phase: ChannelPhase, res: NextPathResult) -> bool {
    reads_path(phase, res.ok) ==> 1 <= res.buffer_used && res.buffer_used - 1 <= res.buffer@.len()
}

/// The walk over the event-log channels (`EvtNextChannelPath`), as decisions
/// on the results of the calls. `keep_retried` says whether a path read
/// after a short buffer is kept (else it is only reported).
pub struct ChannelEnumerator {
    pub phase: ChannelPhase,
    pub keep_retried: bool,
    pub channels: Vec<ElogChannel>,
}

/// What to do after a call.
pub struct ChannelStep {
    /// Whether to call `EvtNextChannelPath` again.
    pub call_again: bool,
    /// A path to print but not keep.
    pub reported: Option<String>,
}

impl ChannelEnumerator {
    /// A walk that has made no call yet.
    pub fn new(keep_retried: bool) -> (e: Self)
        ensures
            e.phase == ChannelPhase::Probe,
            e.keep_retried == keep_retried,
            e.channels@.len() == 0,
    {
        ChannelEnumerator { phase: ChannelPhase::Probe, keep_retried, channels: Vec::new() }
    }

    /// Takes the result of the call just made: moves to the next phase and
    /// keeps (query `*`) or reports the path the call read, if any.
    pub fn on_result(&mut self, res: &NextPathResult) -> (step: ChannelStep)
        requires
            result_usable(old(self).phase, *res),
        ensures
            final(self).phase == next_phase(old(self).phase, res.ok, res.last_error),
            final(self).keep_retried == old(self).keep_retried,
            step.call_again == (final(self).phase != ChannelPhase::Done),
            ({
                let reads = reads_path(old(self).phase, res.ok);
                let keep = old(self).phase == ChannelPhase::Read || old(self).keep_retried;
                &&& reads && keep ==> final(self).channels@.len() == old(self).channels@.len() + 1
                    && final(self).channels@.subrange(0, old(self).channels@.len() as int)
                    == old(self).channels@ && final(self).channels@.last().channel_name@
                    == path_text(res.buffer@, res.buffer_used) && final(self).channels@.last().query@
                    == "*"@
                &&& !(reads && keep) ==> final(self).channels@ == old(self).channels@
                &&& step.reported is Some <==> reads && !keep
                &&& step.reported is Some ==> step.reported->Some_0@ == path_text(
                    res.buffer@,
                    res.buffer_used,
                )
            }),
    {
        let phase = self.phase;
        let reads = res.ok && (phase == ChannelPhase::Read || phase == ChannelPhase::Retry);
        let mut reported: Option<String> = None;
        if reads {
            let n: usize = (res.buffer_used - 1) as usize;
            let path = from_utf16_lossy(res.buffer.as_slice().split_at(n).0);
            proof {
                assert(res.buffer@.subrange(0, n as int) == res.buffer@.subrange(
                    0,
                    res.buffer_used - 1,
                ));
            }
            if phase == ChannelPhase::Read || self.keep_retried {
                self.channels.push(ElogChannel { channel_name: path, query: "*".to_string() });
            } else {
                reported = Some(path);
            }
        }
        self.phase =
        match phase {
            ChannelPhase::Probe => if res.ok {
                ChannelPhase::Read
            } else if res.last_error == ERROR_INSUFFICIENT_BUFFER {
                ChannelPhase::Retry
            } else {
                ChannelPhase::Done
            },
            ChannelPhase::Read => if res.last_error == ERROR_NO_MORE_ITEMS {
                ChannelPhase::Done
            } else {
                ChannelPhase::Probe
            },
            ChannelPhase::Retry => ChannelPhase::Probe,
            ChannelPhase::Done => ChannelPhase::Done,
        };
        ChannelStep { call_again: self.phase != ChannelPhase::Done, reported }
    }
}

/// Whether `c` is the channel `name` with the query `*`.
pub open spec fn is_channel(c: ElogChannel, name: Seq<char>) -> bool {
    c.channel_name@ == name && c.query@ == "*"@
}

/// The event logs subscribed to: Application, System and Security, every
/// event of each.
pub fn default_elog_scope() -> (scope: Vec<ElogChannel>)
    ensures
        scope@.len() == 3,
        is_channel(scope@[0], "Application"@),
        is_channel(scope@[1], "System"@),
        is_channel(scope@[2], "Security"@),
{
    let mut scope: Vec<ElogChannel> = Vec::new();
    scope.push(ElogChannel { channel_name: "Application".to_string(), query: "*".to_string() });
    scope.push(ElogChannel { channel_name: "System".to_string(), query: "*".to_string() });
    scope.push(ElogChannel { channel_name: "Security".to_string(), query: "*".to_string() });
    scope
}

} // verus!
