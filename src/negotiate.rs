use vstd::prelude::*;

use crate::error::StreamError;

verus! {

/// Scale applied to a frame interval before integer division, so that short
/// intervals do not all collapse to zero when they are ranked.
pub const INTERVAL_SCALE: u64 = 1_000_000;

/// The compressed formats a capture device may be asked for.
#[derive(Clone, Copy, Debug, PartialEq, Eq, Structural)]
pub enum CompressedFormat {
    /// The bitstream format this library always emits.
    H264,
    /// A per-frame compressed image format that is transcoded to H264.
    Mjpeg,
}

/// A rational number of seconds.
#[derive(Clone, Copy, Debug, PartialEq, Eq, Structural)]
pub struct Fraction {
    pub numerator: u32,
    pub denominator: u32,
}

/// A frame size as a device advertises it.
#[derive(Clone, Copy, Debug, PartialEq, Eq, Structural)]
pub enum FrameSize {
    Discrete { width: u32, height: u32 },
    Stepwise {
        min_width: u32,
        max_width: u32,
        step_width: u32,
        min_height: u32,
        max_height: u32,
        step_height: u32,
    },
}

/// A frame interval as a device advertises it.
#[derive(Clone, Copy, Debug, PartialEq, Eq, Structural)]
pub enum FrameIntervalSpec {
    Discrete(Fraction),
    Stepwise { min: Fraction, max: Fraction, step: Fraction },
}

/// One frame interval that a device reports for one frame size.
#[derive(Clone, Copy, Debug, PartialEq, Eq, Structural)]
pub struct AdvertisedInterval {
    pub width: u32,
    pub height: u32,
    pub interval: FrameIntervalSpec,
}

/// A (format, resolution, shortest frame interval) candidate.
#[derive(Clone, Copy, Debug, PartialEq, Eq, Structural)]
pub struct CapabilityEntry {
    pub format: CompressedFormat,
    pub width: u32,
    pub height: u32,
    pub frame_interval: Fraction,
}

/// The configuration chosen for a capture session.
#[derive(Clone, Copy, Debug, PartialEq, Eq, Structural)]
pub struct NegotiatedConfig {
    pub format: CompressedFormat,
    pub width: u32,
    pub height: u32,
    pub frame_interval: Fraction,
}

/// The discrete sizes a frame size stands for: itself, or the two bounds of a range.
pub open spec fn size_bounds(s: FrameSize) -> Seq<(u32, u32)> {
    match s {
        FrameSize::Discrete { width, height } => seq![(width, height)],
        FrameSize::Stepwise { min_width, max_width, min_height, max_height, .. } => seq![
            (min_width, min_height),
            (max_width, max_height),
        ],
    }
}

/// All discrete sizes of a list of advertised frame sizes, in order.
pub open spec fn all_size_bounds(sizes: Seq<FrameSize>) -> Seq<(u32, u32)>
    decreases sizes.len(),
{
    if sizes.len() == 0 {
        seq![]
    } else {
        all_size_bounds(sizes.drop_last()) + size_bounds(sizes.last())
    }
}

/// The shortest interval an advertised interval allows.
pub open spec fn shortest(i: FrameIntervalSpec) -> Fraction {
    match i {
        FrameIntervalSpec::Discrete(f) => f,
        FrameIntervalSpec::Stepwise { min, .. } => min,
    }
}

pub open spec fn to_entry(format: CompressedFormat, a: AdvertisedInterval) -> CapabilityEntry {
    CapabilityEntry {
        format,
        width: a.width,
        height: a.height,
        frame_interval: shortest(a.interval),
    }
}

pub open spec fn entries_of(format: CompressedFormat, catalog: Seq<AdvertisedInterval>) -> Seq<
    CapabilityEntry,
> {
    catalog.map_values(|a: AdvertisedInterval| to_entry(format, a))
}

/// Every candidate, the H264 catalog first.
pub open spec fn candidates(
    h264: Seq<AdvertisedInterval>,
    mjpeg: Seq<AdvertisedInterval>,
) -> Seq<CapabilityEntry> {
    entries_of(CompressedFormat::H264, h264) + entries_of(CompressedFormat::Mjpeg, mjpeg)
}

/// An interval is usable when both its parts are positive and the frame rate
/// it gives, `denominator / numerator`, is at most `max_fps`.
pub open spec fn within_ceiling(i: Fraction, max_fps: u32) -> bool {
    i.numerator > 0 && i.denominator > 0 && i.denominator <= max_fps * i.numerator
}

/// The scaled frame interval by which frame rates are ranked; smaller is faster.
pub open spec fn period_key(i: Fraction) -> int {
    (i.numerator * INTERVAL_SCALE) as int / i.denominator as int
}

/// `a` ranks strictly above `b`: wider, then taller, then faster, then H264 before MJPEG.
pub open spec fn outranks(a: CapabilityEntry, b: CapabilityEntry) -> bool {
    if a.width != b.width {
        a.width > b.width
    } else if a.height != b.height {
        a.height > b.height
    } else if period_key(a.frame_interval) != period_key(b.frame_interval) {
        period_key(a.frame_interval) < period_key(b.frame_interval)
    } else {
        a.format == CompressedFormat::H264 && b.format == CompressedFormat::Mjpeg
    }
}

/// The highest ranked entry within the ceiling; of several equal ones, the last.
pub open spec fn select(s: Seq<CapabilityEntry>, max_fps: u32) -> Option<CapabilityEntry>
    decreases s.len(),
{
    if s.len() == 0 {
        None
    } else {
        let prev = select(s.drop_last(), max_fps);
        let e = s.last();
        if !within_ceiling(e.frame_interval, max_fps) {
            prev
        } else {
            match prev {
                Some(b) => if outranks(b, e) {
                    Some(b)
                } else {
                    Some(e)
                },
                None => Some(e),
            }
        }
    }
}

pub open spec fn config_of(e: CapabilityEntry) -> NegotiatedConfig {
    NegotiatedConfig {
        format: e.format,
        width: e.width,
        height: e.height,
        frame_interval: e.frame_interval,
    }
}

/// What negotiation over two catalogs yields.
pub open spec fn negotiation(
    h264: Seq<AdvertisedInterval>,
    mjpeg: Seq<AdvertisedInterval>,
    max_fps: u32,
) -> Option<NegotiatedConfig> {
    match select(candidates(h264, mjpeg), max_fps) {
        Some(e) => Some(config_of(e)),
        None => None,
    }
}

/// Entry `i` is within the ceiling, no entry within it ranks above it, and it
/// ranks strictly above every later entry within it.
pub open spec fn is_winner_at(s: Seq<CapabilityEntry>, max_fps: u32, i: int) -> bool {
    &&& 0 <= i < s.len()
    &&& within_ceiling(s[i].frame_interval, max_fps)
    &&& forall|j: int|
        0 <= j < s.len() && within_ceiling(s[j].frame_interval, max_fps) ==> !outranks(
            s[j],
            s[i],
        )
    &&& forall|j: int|
        i < j < s.len() && within_ceiling(s[j].frame_interval, max_fps) ==> outranks(s[i], s[j])
}

/// Expands advertised frame sizes into discrete sizes; a range gives its two bounds.
pub fn discrete_sizes(sizes: &Vec<FrameSize>) -> (r: Vec<(u32, u32)>)
    ensures
        r@ == all_size_bounds(sizes@),
{
    let mut r: Vec<(u32, u32)> = Vec::new();
    let mut k: usize = 0;
    while k < sizes.len()
        invariant
            k <= sizes.len(),
            r@ == all_size_bounds(sizes@.take(k as int)),
        decreases sizes.len() - k,
    {
        proof {
            assert(sizes@.take(k as int + 1).drop_last() == sizes@.take(k as int));
        }
        match sizes[k] {
            FrameSize::Discrete { width, height } => {
                r.push((width, height));
            },
            FrameSize::Stepwise { min_width, max_width, min_height, max_height, .. } => {
                r.push((min_width, min_height));
                r.push((max_width, max_height));
            },
        }
        k = k + 1;
    }
    assert(sizes@.take(sizes.len() as int) == sizes@);
    r
}

/// A capability query that failed counts as one that reported nothing, so
/// that the other format can still be negotiated.
pub fn reported_or_empty<T>(reported: Result<Vec<T>, std::io::Error>) -> (r: Vec<T>)
    ensures
        match reported {
            Ok(v) => r@ == v@,
            Err(_) => r@.len() == 0,
        },
{
    match reported {
        Ok(v) => v,
        Err(_) => Vec::new(),
    }
}

impl FrameIntervalSpec {
    /// The shortest interval, which gives the highest frame rate.
    pub fn min_interval(&self) -> (r: Fraction)
        ensures
            r == shortest(*self),
    {
        match self {
            FrameIntervalSpec::Discrete(f) => *f,
            FrameIntervalSpec::Stepwise { min, .. } => *min,
        }
    }
}

/// Whether an interval has positive parts and a frame rate of at most `max_fps`.
pub fn is_within_ceiling(interval: Fraction, max_fps: u32) -> (r: bool)
    ensures
        r == within_ceiling(interval, max_fps),
{
    let fps = max_fps as u64;
    let num = interval.numerator as u64;
    assert(fps * num <= 4294967295 * 4294967295) by (nonlinear_arith)
        requires
            fps <= 4294967295,
            num <= 4294967295,
    ;
    num > 0 && interval.denominator > 0 && (interval.denominator as u64) <= fps * num
}

/// The scaled interval by which frame rates are ranked.
pub fn interval_key(interval: Fraction) -> (r: u64)
    requires
        interval.denominator > 0,
    ensures
        r == period_key(interval),
{
    let num = interval.numerator as u64;
    assert(num * INTERVAL_SCALE <= 4294967295 * 1_000_000) by (nonlinear_arith)
        requires
            num <= 4294967295,
    ;
    (interval.numerator as u64) * INTERVAL_SCALE / (interval.denominator as u64)
}

/// Whether `a` ranks strictly above `b`; both must be proper fractions.
pub fn ranks_above(a: &CapabilityEntry, b: &CapabilityEntry) -> (r: bool)
    requires
        a.frame_interval.denominator > 0,
        b.frame_interval.denominator > 0,
    ensures
        r == outranks(*a, *b),
{
    if a.width != b.width {
        a.width > b.width
    } else if a.height != b.height {
        a.height > b.height
    } else {
        let ka = interval_key(a.frame_interval);
        let kb = interval_key(b.frame_interval);
        if ka != kb {
            ka < kb
        } else {
            a.format == CompressedFormat::H264 && b.format == CompressedFormat::Mjpeg
        }
    }
}

/// Turns one catalog into candidates of the given format.
pub fn catalog_entries(format: CompressedFormat, catalog: &Vec<AdvertisedInterval>) -> (r: Vec<
    CapabilityEntry,
>)
    ensures
        r@ == entries_of(format, catalog@),
{
    let mut r: Vec<CapabilityEntry> = Vec::new();
    let mut k: usize = 0;
    while k < catalog.len()
        invariant
            k <= catalog.len(),
            r@ == entries_of(format, catalog@.take(k as int)),
        decreases catalog.len() - k,
    {
        let a = catalog[k];
        r.push(
            CapabilityEntry {
                format,
                width: a.width,
                height: a.height,
                frame_interval: a.interval.min_interval(),
            },
        );
        k = k + 1;
        assert(r@ =~= entries_of(format, catalog@.take(k as int)));
    }
    assert(catalog@.take(catalog.len() as int) == catalog@);
    r
}

/// Picks the highest ranked entry within the frame-rate ceiling; of equally
/// ranked entries the last one wins.
pub fn select_best(entries: &Vec<CapabilityEntry>, max_fps: u32) -> (r: Option<CapabilityEntry>)
    ensures
        r == select(entries@, max_fps),
{
    let mut best: Option<CapabilityEntry> = None;
    let mut k: usize = 0;
    while k < entries.len()
        invariant
            k <= entries.len(),
            best == select(entries@.take(k as int), max_fps),
            best matches Some(b) ==> within_ceiling(b.frame_interval, max_fps),
        decreases entries.len() - k,
    {
        proof {
            assert(entries@.take(k as int + 1).drop_last() == entries@.take(k as int));
            lemma_select_within(entries@.take(k as int), max_fps);
        }
        let e = entries[k];
        if is_within_ceiling(e.frame_interval, max_fps) {
            best =
            match best {
                Some(b) => if ranks_above(&b, &e) {
                    Some(b)
                } else {
                    Some(e)
                },
                None => Some(e),
            };
        }
        k = k + 1;
    }
    assert(entries@.take(entries.len() as int) == entries@);
    best
}

/// Selects the configuration to capture with from the H264 and MJPEG catalogs.
pub fn negotiate(h264: &Vec<AdvertisedInterval>, mjpeg: &Vec<AdvertisedInterval>, max_fps: u32) -> (r:
    Result<NegotiatedConfig, StreamError>)
    ensures
        match r {
            Ok(c) => negotiation(h264@, mjpeg@, max_fps) == Some(c),
            Err(e) => e is NoSupportedConfiguration && negotiation(h264@, mjpeg@, max_fps) is None,
        },
{
    let mut entries = catalog_entries(CompressedFormat::H264, h264);
    let mut rest = catalog_entries(CompressedFormat::Mjpeg, mjpeg);
    entries.append(&mut rest);
    match select_best(&entries, max_fps) {
        Some(e) => Ok(
            NegotiatedConfig {
                format: e.format,
                width: e.width,
                height: e.height,
                frame_interval: e.frame_interval,
            },
        ),
        None => Err(StreamError::NoSupportedConfiguration),
    }
}

proof fn lemma_select_within(s: Seq<CapabilityEntry>, max_fps: u32)
    ensures
        select(s, max_fps) matches Some(b) ==> within_ceiling(b.frame_interval, max_fps),
    decreases s.len(),
{
    if s.len() > 0 {
        lemma_select_within(s.drop_last(), max_fps);
    }
}

/// Selection yields nothing exactly when no entry is within the ceiling, and
/// otherwise yields the entry at a winning position.
pub proof fn lemma_select_is_winner(s: Seq<CapabilityEntry>, max_fps: u32)
    ensures
        select(s, max_fps) is None <==> forall|j: int|
            0 <= j < s.len() ==> !within_ceiling(#[trigger] s[j].frame_interval, max_fps),
        select(s, max_fps) matches Some(e) ==> exists|i: int|
            is_winner_at(s, max_fps, i) && s[i] == e,
    decreases s.len(),
{
    if s.len() > 0 {
        let p = s.drop_last();
        let n = s.len() - 1;
        let e = s.last();
        lemma_select_is_winner(p, max_fps);
        assert(forall|j: int| 0 <= j < n ==> p[j] == s[j]);
        match select(p, max_fps) {
            Some(b) => {
                let i = choose|i: int| is_winner_at(p, max_fps, i) && p[i] == b;
                if !within_ceiling(e.frame_interval, max_fps) || outranks(b, e) {
                    assert(is_winner_at(s, max_fps, i));
                } else {
                    assert forall|j: int|
                        0 <= j < s.len() && within_ceiling(
                            s[j].frame_interval,
                            max_fps,
                        ) implies !outranks(s[j], e) by {
                        if j < n {
                            assert(!outranks(p[j], b));
                        }
                    }
                    assert(is_winner_at(s, max_fps, n));
                }
            },
            None => {
                if within_ceiling(e.frame_interval, max_fps) {
                    assert(is_winner_at(s, max_fps, n));
                }
            },
        }
    }
}

/// At most one position of a catalog wins, so negotiation over the same
/// catalogs and ceiling always yields the same configuration.
pub proof fn lemma_winner_unique(s: Seq<CapabilityEntry>, max_fps: u32, i: int, j: int)
    requires
        is_winner_at(s, max_fps, i),
        is_winner_at(s, max_fps, j),
    ensures
        i == j,
{
    if i < j {
        assert(outranks(s[i], s[j]));
    } else if j < i {
        assert(outranks(s[j], s[i]));
    }
}

/// Negotiation yields the configuration of the one winning candidate, and
/// fails exactly when no candidate is within the ceiling.
pub proof fn lemma_negotiation_determined(
    h264: Seq<AdvertisedInterval>,
    mjpeg: Seq<AdvertisedInterval>,
    max_fps: u32,
    i: int,
)
    requires
        is_winner_at(candidates(h264, mjpeg), max_fps, i),
    ensures
        negotiation(h264, mjpeg, max_fps) == Some(config_of(candidates(h264, mjpeg)[i])),
{
    let s = candidates(h264, mjpeg);
    lemma_select_is_winner(s, max_fps);
    let e = select(s, max_fps)->Some_0;
    let k = choose|k: int| is_winner_at(s, max_fps, k) && s[k] == e;
    lemma_winner_unique(s, max_fps, i, k);
}

/// A negotiated configuration never exceeds the frame-rate ceiling, and no
/// candidate within the ceiling ranks above it.
pub proof fn lemma_negotiation_within_ceiling(
    h264: Seq<AdvertisedInterval>,
    mjpeg: Seq<AdvertisedInterval>,
    max_fps: u32,
)
    ensures
        negotiation(h264, mjpeg, max_fps) matches Some(c) ==> {
            &&& within_ceiling(c.frame_interval, max_fps)
            &&& forall|j: int|
                0 <= j < candidates(h264, mjpeg).len() && within_ceiling(
                    #[trigger] candidates(h264, mjpeg)[j].frame_interval,
                    max_fps,
                ) ==> !outranks(
                    candidates(h264, mjpeg)[j],
                    CapabilityEntry {
                        format: c.format,
                        width: c.width,
                        height: c.height,
                        frame_interval: c.frame_interval,
                    },
                )
        },
{
    let s = candidates(h264, mjpeg);
    lemma_select_is_winner(s, max_fps);
    if let Some(e) = select(s, max_fps) {
        let i = choose|i: int| is_winner_at(s, max_fps, i) && s[i] == e;
        assert(is_winner_at(s, max_fps, i));
    }
}

/// Negotiation fails exactly when every candidate exceeds the ceiling (in
/// particular when both catalogs are empty).
pub proof fn lemma_negotiation_fails_iff_none_within(
    h264: Seq<AdvertisedInterval>,
    mjpeg: Seq<AdvertisedInterval>,
    max_fps: u32,
)
    ensures
        negotiation(h264, mjpeg, max_fps) is None <==> forall|j: int|
            0 <= j < candidates(h264, mjpeg).len() ==> !within_ceiling(
                #[trigger] candidates(h264, mjpeg)[j].frame_interval,
                max_fps,
            ),
{
    lemma_select_is_winner(candidates(h264, mjpeg), max_fps);
}

/// When an H264 candidate within the ceiling has the same size and frame rate
/// as the winner, the winner is an H264 candidate too.
pub proof fn lemma_h264_preferred(s: Seq<CapabilityEntry>, max_fps: u32, i: int, j: int)
    requires
        is_winner_at(s, max_fps, i),
        0 <= j < s.len(),
        within_ceiling(s[j].frame_interval, max_fps),
        s[j].format == CompressedFormat::H264,
        s[j].width == s[i].width,
        s[j].height == s[i].height,
        period_key(s[j].frame_interval) == period_key(s[i].frame_interval),
    ensures
        s[i].format == CompressedFormat::H264,
{
    assert(!outranks(s[j], s[i]));
}

} // verus!
