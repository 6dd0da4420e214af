use vstd::prelude::*;

use crate::error::{AudioError, Direction};
use crate::format::{SampleEncoding, StreamFormat};

verus! {

/// One configuration range that an output device advertises.
#[derive(Clone, Copy, Debug, PartialEq, Eq, Structural)]
pub struct ConfigRange {
    pub channels: u16,
    pub min_rate: u32,
    pub max_rate: u32,
    pub encoding: SampleEncoding,
}

/// The configuration picked for playback.
#[derive(Clone, Copy, Debug, PartialEq, Eq, Structural)]
pub struct OutputChoice {
    /// Position of the chosen range in the advertised list.
    pub index: usize,
    /// The stream format to open the device with.
    pub format: StreamFormat,
    /// False when no range had the requested channel count and the first
    /// range was taken instead.
    pub channels_matched: bool,
}

/// Preference among encodings, lower first: float, then 16-, 32-bit signed,
/// 16-bit unsigned, unknown encodings, and 8-bit unsigned last.
pub open spec fn format_priority(e: SampleEncoding) -> nat {
    match e {
        SampleEncoding::Float32 => 0,
        SampleEncoding::Int16 => 1,
        SampleEncoding::Int32 => 2,
        SampleEncoding::UInt16 => 3,
        SampleEncoding::Other => 50,
        SampleEncoding::UInt8 => 100,
    }
}

/// Distance between a range's highest rate and the requested rate.
pub open spec fn rate_distance(max_rate: u32, rate: u32) -> nat {
    if max_rate >= rate {
        (max_rate - rate) as nat
    } else {
        (rate - max_rate) as nat
    }
}

/// `a` ranks strictly before `b` for a request at `rate`: the pair
/// (encoding priority, rate distance) is lexicographically smaller.
pub open spec fn ranks_before(a: ConfigRange, b: ConfigRange, rate: u32) -> bool {
    format_priority(a.encoding) < format_priority(b.encoding) || (format_priority(a.encoding)
        == format_priority(b.encoding) && rate_distance(a.max_rate, rate) < rate_distance(
        b.max_rate,
        rate,
    ))
}

/// Among the first `n` ranges, `k` is the earliest one with `channels`
/// channels that no other such range ranks before.
pub open spec fn best_in_prefix(
    cs: Seq<ConfigRange>,
    channels: u16,
    rate: u32,
    k: int,
    n: int,
) -> bool {
    &&& 0 <= k < n <= cs.len()
    &&& cs[k].channels == channels
    &&& forall|j: int|
        0 <= j < k && #[trigger] cs[j].channels == channels ==> ranks_before(cs[k], cs[j], rate)
    &&& forall|j: int|
        k < j < n && #[trigger] cs[j].channels == channels ==> !ranks_before(cs[j], cs[k], rate)
}

/// `k` is the range that negotiation picks when some range has the channels.
pub open spec fn is_best_match(cs: Seq<ConfigRange>, channels: u16, rate: u32, k: int) -> bool {
    best_in_prefix(cs, channels, rate, k, cs.len() as int)
}

/// Some range has exactly `channels` channels.
pub open spec fn has_channel_match(cs: Seq<ConfigRange>, channels: u16) -> bool {
    exists|j: int| 0 <= j < cs.len() && #[trigger] cs[j].channels == channels
}

/// The rate used on range `c`: the requested one when `c` supports it, else
/// the range's highest rate.
pub open spec fn rate_on(c: ConfigRange, rate: u32) -> u32 {
    if c.min_rate <= rate && rate <= c.max_rate {
        rate
    } else {
        c.max_rate
    }
}

fn priority(e: SampleEncoding) -> (r: u32)
    ensures
        r as nat == format_priority(e),
{
    match e {
        SampleEncoding::Float32 => 0,
        SampleEncoding::Int16 => 1,
        SampleEncoding::Int32 => 2,
        SampleEncoding::UInt16 => 3,
        SampleEncoding::Other => 50,
        SampleEncoding::UInt8 => 100,
    }
}

fn distance(max_rate: u32, rate: u32) -> (r: u32)
    ensures
        r as nat == rate_distance(max_rate, rate),
{
    if max_rate >= rate {
        max_rate - rate
    } else {
        rate - max_rate
    }
}

fn before(a: &ConfigRange, b: &ConfigRange, rate: u32) -> (r: bool)
    ensures
        r == ranks_before(*a, *b, rate),
{
    let pa = priority(a.encoding);
    let pb = priority(b.encoding);
    pa < pb || (pa == pb && distance(a.max_rate, rate) < distance(b.max_rate, rate))
}

/// Picks the output configuration for a file with `channels` channels at
/// `rate` Hz.
///
/// Among the ranges with exactly `channels` channels the one with the
/// smallest (encoding priority, rate distance) wins, the earliest on a tie;
/// it is opened at `rate` when it supports it and at its highest rate
/// otherwise. With no such range the first range is used at its highest rate
/// and the mismatch is reported; with no range at all the result is
/// `NoOutputConfig`.
pub fn select_output_config(configs: &Vec<ConfigRange>, channels: u16, rate: u32) -> (r: Result<
    OutputChoice,
    AudioError,
>)
    ensures
        configs@.len() == 0 ==> r == Err::<OutputChoice, AudioError>(AudioError::NoOutputConfig),
        has_channel_match(configs@, channels) ==> {
            &&& r is Ok
            &&& is_best_match(configs@, channels, rate, r->Ok_0.index as int)
            &&& r->Ok_0.format == (StreamFormat {
                channels,
                sample_rate: rate_on(configs@[r->Ok_0.index as int], rate),
                encoding: configs@[r->Ok_0.index as int].encoding,
            })
            &&& r->Ok_0.channels_matched
        },
        configs@.len() > 0 && !has_channel_match(configs@, channels) ==> r == Ok::<
            OutputChoice,
            AudioError,
        >(
            OutputChoice {
                index: 0,
                format: StreamFormat {
                    channels: configs@[0].channels,
                    sample_rate: configs@[0].max_rate,
                    encoding: configs@[0].encoding,
                },
                channels_matched: false,
            },
        ),
{
    let mut best: Option<usize> = None;
    let mut i: usize = 0;
    while i < configs.len()
        invariant
            i <= configs@.len(),
            best is None ==> forall|j: int| 0 <= j < i ==> #[trigger] configs@[j].channels != channels,
            best is Some ==> best_in_prefix(configs@, channels, rate, best->0 as int, i as int),
        decreases configs@.len() - i,
    {
        if configs[i].channels == channels {
            match best {
                None => {
                    best = Some(i);
                },
                Some(b) => {
                    if before(&configs[i], &configs[b], rate) {
                        best = Some(i);
                    }
                },
            }
        }
        i = i + 1;
    }
    match best {
        Some(b) => {
            let c = configs[b];
            let sample_rate = if c.min_rate <= rate && rate <= c.max_rate {
                rate
            } else {
                c.max_rate
            };
            Ok(
                OutputChoice {
                    index: b,
                    format: StreamFormat { channels, sample_rate, encoding: c.encoding },
                    channels_matched: true,
                },
            )
        },
        None => {
            if configs.len() == 0 {
                Err(AudioError::NoOutputConfig)
            } else {
                let c = configs[0];
                Ok(
                    OutputChoice {
                        index: 0,
                        format: StreamFormat {
                            channels: c.channels,
                            sample_rate: c.max_rate,
                            encoding: c.encoding,
                        },
                        channels_matched: false,
                    },
                )
            }
        },
    }
}

/// Negotiation is deterministic: for a fixed list of ranges and a fixed
/// request, at most one range satisfies the ranking that
/// `select_output_config` promises, so every call picks the same one.
pub proof fn lemma_selection_unique(cs: Seq<ConfigRange>, channels: u16, rate: u32, a: int, b: int)
    requires
        is_best_match(cs, channels, rate, a),
        is_best_match(cs, channels, rate, b),
    ensures
        a == b,
{
    if a < b {
        assert(ranks_before(cs[b], cs[a], rate));
    } else if b < a {
        assert(ranks_before(cs[a], cs[b], rate));
    }
}

/// The encodings in which input capture can convert samples.
pub open spec fn capturable(e: SampleEncoding) -> bool {
    e is Float32 || e is Int16 || e is UInt16
}

/// The sample rate that capture prefers.
pub const PREFERRED_INPUT_RATE: u32 = 48000;

/// Range `c` has the channels and encoding of `f` and includes its rate.
pub open spec fn covers(c: ConfigRange, f: StreamFormat) -> bool {
    c.channels == f.channels && c.encoding == f.encoding && c.min_rate <= f.sample_rate
        && f.sample_rate <= c.max_rate
}

/// Some range of the device that holds the default configuration `f` also
/// includes the preferred rate.
pub open spec fn permits_preferred(ranges: Seq<ConfigRange>, f: StreamFormat) -> bool {
    exists|k: int|
        0 <= k < ranges.len() && covers(#[trigger] ranges[k], f) && ranges[k].min_rate
            <= PREFERRED_INPUT_RATE <= ranges[k].max_rate
}

/// Picks the capture format from the input device's default configuration
/// `default` and the ranges the device advertises.
///
/// The channel count and encoding are the default's. The rate is 48 kHz when
/// a range that holds the default configuration includes it, and the default
/// rate otherwise. A default without channels or rate is a configuration
/// error; an encoding that capture cannot convert is refused.
pub fn select_input_format(default: StreamFormat, ranges: &Vec<ConfigRange>) -> (r: Result<
    StreamFormat,
    AudioError,
>)
    ensures
        !default.valid() ==> r is Err && r->Err_0 matches AudioError::ConfigQueryFailed(
            Direction::Input,
            _,
        ),
        default.valid() && !capturable(default.encoding) ==> r == Err::<StreamFormat, AudioError>(
            AudioError::UnsupportedInputFormat,
        ),
        default.valid() && capturable(default.encoding) ==> r == Ok::<StreamFormat, AudioError>(
            StreamFormat {
                sample_rate: if permits_preferred(ranges@, default) {
                    PREFERRED_INPUT_RATE
                } else {
                    default.sample_rate
                },
                ..default
            },
        ),
{
    if default.channels == 0 || default.sample_rate == 0 {
        return Err(
            AudioError::ConfigQueryFailed(
                Direction::Input,
                String::from_str("the default configuration has no channels or no rate"),
            ),
        );
    }
    match default.encoding {
        SampleEncoding::Float32 | SampleEncoding::Int16 | SampleEncoding::UInt16 => {},
        _ => {
            return Err(AudioError::UnsupportedInputFormat);
        },
    }
    let mut i: usize = 0;
    while i < ranges.len()
        invariant
            default.valid(),
            capturable(default.encoding),
            i <= ranges@.len(),
            forall|k: int|
                0 <= k < i ==> !(covers(#[trigger] ranges@[k], default) && ranges@[k].min_rate
                    <= PREFERRED_INPUT_RATE <= ranges@[k].max_rate),
        decreases ranges@.len() - i,
    {
        let c = ranges[i];
        if c.channels == default.channels && c.encoding == default.encoding && c.min_rate
            <= default.sample_rate && default.sample_rate <= c.max_rate && c.min_rate
            <= PREFERRED_INPUT_RATE && PREFERRED_INPUT_RATE <= c.max_rate {
            return Ok(StreamFormat { sample_rate: PREFERRED_INPUT_RATE, ..default });
        }
        i = i + 1;
    }
    Ok(default)
}

} // verus!
