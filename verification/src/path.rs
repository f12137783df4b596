//! Building the drawable polyline of one channel, truncated at the playback
//! position.
//!
//! The path seeds a move-to at the first point, then walks the series in
//! time order appending a line-to per recorded point, and stops at the first
//! point past the cutoff time. Recorded gaps emit no command, leaving a
//! visual gap without a broken segment. Coordinates come out of the two
//! linear scales, in fixed-point pixels (millionths of a pixel).

use vstd::prelude::*;

use crate::chart_data::{ChartData, DataPoint};
use crate::error::ShotError;
use crate::range::Range;
use crate::scale::{bounded_endpoints, LinearScale, SCALE_LIMIT};

verus! {

/// Drawing width of the chart, in fixed-point pixels.
pub const CHART_WIDTH: i64 = 400_000_000;

/// Drawing height of the chart, in fixed-point pixels.
pub const CHART_HEIGHT: i64 = 660_000_000;

/// One drawing command of a polyline, in fixed-point pixel coordinates.
#[derive(Clone, Copy, Debug, PartialEq, Eq, Structural)]
pub enum PathCommand {
    MoveTo(i64, i64),
    LineTo(i64, i64),
}

/// How many leading points of `pts` lie at or before the cutoff: the scan
/// stops at the first point past it, whatever follows.
pub open spec fn prefix_within(pts: Seq<DataPoint>, cutoff: int) -> int
    decreases pts.len(),
{
    if pts.len() == 0 {
        0
    } else if pts[0].spec_t() > cutoff {
        0
    } else {
        1 + prefix_within(pts.drop_first(), cutoff)
    }
}

/// The command a scanned point contributes: a line-to for a recorded value,
/// nothing for a gap.
pub open spec fn cmd_of(p: DataPoint, xs: LinearScale, ys: LinearScale) -> Seq<PathCommand> {
    match p {
        DataPoint::NoData(_) => Seq::empty(),
        DataPoint::Present((t, v)) => seq![
            PathCommand::LineTo(xs.scale_at(t as int) as i64, ys.scale_at(v as int) as i64),
        ],
    }
}

/// The line-to commands of a scanned point run.
pub open spec fn line_cmds(pts: Seq<DataPoint>, xs: LinearScale, ys: LinearScale) -> Seq<
    PathCommand,
>
    decreases pts.len(),
{
    if pts.len() == 0 {
        Seq::empty()
    } else {
        cmd_of(pts[0], xs, ys) + line_cmds(pts.drop_first(), xs, ys)
    }
}

/// The full path of a series under the given scales and cutoff: a move-to at
/// the first point, then the line-to commands of the points within the
/// cutoff. A series whose first point is a gap yields no path at all.
pub open spec fn path_of(
    series: Seq<DataPoint>,
    xs: LinearScale,
    ys: LinearScale,
    cutoff: int,
) -> Seq<PathCommand> {
    if series.len() == 0 {
        Seq::empty()
    } else {
        match series[0] {
            DataPoint::NoData(_) => Seq::empty(),
            DataPoint::Present((t, v)) => seq![
                PathCommand::MoveTo(xs.scale_at(t as int) as i64, ys.scale_at(v as int) as i64),
            ] + line_cmds(
                series.subrange(1, 1 + prefix_within(series.skip(1), cutoff)),
                xs,
                ys,
            ),
        }
    }
}

/// The inputs the path builder is specified for: endpoints small enough for
/// exact arithmetic, every sample time within the time domain, and every
/// recorded value within the channel's own range (which is how ranges and
/// domains are built in the first place).
pub open spec fn path_inputs_ok(
    data: ChartData,
    time_domain: Range,
    codomain: (i64, i64),
    width: i64,
) -> bool {
    &&& 0 < width <= SCALE_LIMIT
    &&& time_domain.min <= time_domain.max
    &&& data.range.min <= data.range.max
    &&& bounded_endpoints((time_domain.min, time_domain.max), codomain)
    &&& bounded_endpoints((data.range.min, data.range.max), codomain)
    &&& forall|i: int|
        0 <= i < data.series@.len() ==> time_domain.min <= (#[trigger] data.series@[i]).spec_t()
            <= time_domain.max
    &&& forall|i: int|
        0 <= i < data.series@.len() ==> ((#[trigger] data.series@[i]) matches DataPoint::Present(
            (_, v),
        ) ==> data.range.min <= v <= data.range.max)
}

/// What the path builder returns: the path, or a degenerate-domain report
/// when either the time domain or the value range has zero width.
pub open spec fn path_outcome(
    data: ChartData,
    time_domain: Range,
    codomain: (i64, i64),
    width: i64,
    cutoff: int,
) -> Result<Seq<PathCommand>, ShotError> {
    if time_domain.min != time_domain.max && data.range.min != data.range.max {
        Ok(
            path_of(
                data.series@,
                LinearScale {
                    d_lo: time_domain.min,
                    d_hi: time_domain.max,
                    c_lo: 0,
                    c_hi: width,
                },
                LinearScale {
                    d_lo: data.range.min,
                    d_hi: data.range.max,
                    c_lo: codomain.0,
                    c_hi: codomain.1,
                },
                cutoff,
            ),
        )
    } else {
        Err(ShotError::DegenerateDomain)
    }
}

/// The exec result agrees with the specified outcome, command for command.
pub open spec fn matches_outcome(
    r: Result<Vec<PathCommand>, ShotError>,
    o: Result<Seq<PathCommand>, ShotError>,
) -> bool {
    &&& r is Ok <==> o is Ok
    &&& (r is Ok ==> r->Ok_0@ == o->Ok_0)
    &&& (r is Err ==> r->Err_0 == o->Err_0)
}

/// A scan that saw only in-cutoff points before `p`, and a past-cutoff point
/// at `p` if `p` is in bounds, stopped exactly at `p`.
proof fn lemma_prefix_within_at(pts: Seq<DataPoint>, cutoff: int, p: int)
    requires
        0 <= p <= pts.len(),
        forall|j: int| 0 <= j < p ==> (#[trigger] pts[j]).spec_t() <= cutoff,
        p < pts.len() ==> pts[p].spec_t() > cutoff,
    ensures
        prefix_within(pts, cutoff) == p,
    decreases p,
{
    if p > 0 {
        let t = pts.drop_first();
        assert(forall|j: int| 0 <= j < p - 1 ==> (#[trigger] t[j]).spec_t() <= cutoff);
        lemma_prefix_within_at(t, cutoff, p - 1);
    }
}

/// Scanning one more point appends that point's command.
proof fn lemma_line_cmds_snoc(pts: Seq<DataPoint>, p: DataPoint, xs: LinearScale, ys: LinearScale)
    ensures
        line_cmds(pts.push(p), xs, ys) == line_cmds(pts, xs, ys) + cmd_of(p, xs, ys),
    decreases pts.len(),
{
    if pts.len() == 0 {
        assert(pts.push(p)[0] == p);
        assert(pts.push(p).drop_first() =~= Seq::<DataPoint>::empty());
        assert(line_cmds(pts.push(p), xs, ys) == cmd_of(p, xs, ys) + line_cmds(
            Seq::<DataPoint>::empty(),
            xs,
            ys,
        ));
        assert(line_cmds(pts.push(p), xs, ys) =~= line_cmds(pts, xs, ys) + cmd_of(p, xs, ys));
    } else {
        assert(pts.push(p).drop_first() =~= pts.drop_first().push(p));
        lemma_line_cmds_snoc(pts.drop_first(), p, xs, ys);
        assert(line_cmds(pts.push(p), xs, ys) =~= line_cmds(pts, xs, ys) + cmd_of(p, xs, ys));
    }
}

/// The commands of a point-run prefix are a prefix of the run's commands.
proof fn lemma_line_cmds_take_prefix(pts: Seq<DataPoint>, k: int, xs: LinearScale, ys: LinearScale)
    requires
        0 <= k <= pts.len(),
    ensures
        line_cmds(pts.take(k), xs, ys).is_prefix_of(line_cmds(pts, xs, ys)),
    decreases pts.len() - k,
{
    if k == pts.len() {
        assert(pts.take(k) =~= pts);
    } else {
        assert(pts.take(k + 1) =~= pts.take(k).push(pts[k]));
        lemma_line_cmds_snoc(pts.take(k), pts[k], xs, ys);
        lemma_line_cmds_take_prefix(pts, k + 1, xs, ys);
        assert(line_cmds(pts.take(k), xs, ys).is_prefix_of(line_cmds(pts.take(k + 1), xs, ys)));
    }
}

/// A later cutoff never scans fewer points.
proof fn lemma_prefix_within_monotonic(pts: Seq<DataPoint>, c1: int, c2: int)
    requires
        c1 <= c2,
    ensures
        0 <= prefix_within(pts, c1) <= prefix_within(pts, c2) <= pts.len(),
    decreases pts.len(),
{
    if pts.len() > 0 {
        lemma_prefix_within_monotonic(pts.drop_first(), c1, c2);
    }
}

/// Scrubbing monotonicity: moving the cutoff forward only appends commands;
/// the path at an earlier cutoff is a prefix of the path at any later one.
pub proof fn lemma_path_prefix_monotonic(
    series: Seq<DataPoint>,
    xs: LinearScale,
    ys: LinearScale,
    c1: int,
    c2: int,
)
    requires
        c1 <= c2,
    ensures
        path_of(series, xs, ys, c1).is_prefix_of(path_of(series, xs, ys, c2)),
    decreases series.len(),
{
    if series.len() == 0 {
    } else {
        match series[0] {
            DataPoint::NoData(_) => {},
            DataPoint::Present((t, v)) => {
                let rest = series.skip(1);
                lemma_prefix_within_monotonic(rest, c1, c2);
                let a = prefix_within(rest, c1);
                let b = prefix_within(rest, c2);
                let pts = series.subrange(1, 1 + b);
                assert(series.subrange(1, 1 + a) =~= pts.take(a));
                lemma_line_cmds_take_prefix(pts, a, xs, ys);
                let head = seq![
                    PathCommand::MoveTo(
                        xs.scale_at(t as int) as i64,
                        ys.scale_at(v as int) as i64,
                    ),
                ];
                let short = line_cmds(pts.take(a), xs, ys);
                let long = line_cmds(pts, xs, ys);
                assert((head + short).is_prefix_of(head + long)) by {
                    assert((head + short) =~= (head + long).subrange(
                        0,
                        (head + short).len() as int,
                    ));
                }
            },
        }
    }
}

/// Builds the drawable path of one channel, truncated at `cutoff` (fixed
/// point, same time unit as the series). The x scale maps the time domain
/// onto `(0, width)`; the y scale maps the channel's value range onto
/// `codomain`. Fails exactly when either scale's domain has zero width.
#[verifier::loop_isolation(false)]
pub fn build_path(
    data: &ChartData,
    time_domain: &Range,
    codomain: (i64, i64),
    width: i64,
    cutoff: i64,
) -> (r: Result<Vec<PathCommand>, ShotError>)
    requires
        path_inputs_ok(*data, *time_domain, codomain, width),
    ensures
        matches_outcome(r, path_outcome(*data, *time_domain, codomain, width, cutoff as int)),
{
    let xs = match LinearScale::new((time_domain.min, time_domain.max), (0, width)) {
        Ok(sc) => sc,
        Err(e) => return Err(e),
    };
    let ys = match LinearScale::new((data.range.min, data.range.max), codomain) {
        Ok(sc) => sc,
        Err(e) => return Err(e),
    };
    let n = data.series.len();
    let mut cmds: Vec<PathCommand> = Vec::new();
    if n == 0 {
        return Ok(cmds);
    }
    let (t0, v0) = match data.series[0] {
        DataPoint::Present(tv) => tv,
        DataPoint::NoData(_) => {
            // An unseeded path: the first sample carries no value, so no
            // curve is emitted for this channel.
            return Ok(cmds);
        },
    };
    cmds.push(PathCommand::MoveTo(xs.apply(t0), ys.apply(v0)));
    let ghost rest = data.series@.skip(1);
    let mut i: usize = 1;
    let mut past_cutoff = false;
    while i < n && !past_cutoff
        invariant
            1 <= i <= n,
            forall|j: int| 1 <= j < i ==> (#[trigger] data.series@[j]).spec_t() <= cutoff,
            cmds@ == seq![
                PathCommand::MoveTo(
                    xs.scale_at(t0 as int) as i64,
                    ys.scale_at(v0 as int) as i64,
                ),
            ] + line_cmds(data.series@.subrange(1, i as int), xs, ys),
            past_cutoff ==> i < n && data.series@[i as int].spec_t() > cutoff,
        decreases n - i, 1int - (if past_cutoff { 1int } else { 0int }),
    {
        let p = data.series[i];
        if p.t() > cutoff {
            past_cutoff = true;
        } else {
            proof {
                assert(data.series@.subrange(1, i + 1) =~= data.series@.subrange(
                    1,
                    i as int,
                ).push(data.series@[i as int]));
                lemma_line_cmds_snoc(data.series@.subrange(1, i as int), data.series@[i as int], xs, ys);
            }
            match p {
                DataPoint::Present((t, v)) => {
                    cmds.push(PathCommand::LineTo(xs.apply(t), ys.apply(v)));
                },
                DataPoint::NoData(_) => {
                    proof {
                        assert(cmds@ + cmd_of(data.series@[i as int], xs, ys) =~= cmds@);
                    }
                },
            }
            i += 1;
        }
    }
    proof {
        assert(forall|j: int| 0 <= j < i - 1 ==> (#[trigger] rest[j]).spec_t() <= cutoff);
        lemma_prefix_within_at(rest, cutoff as int, i - 1);
        assert(data.series@.subrange(1, i as int) =~= data.series@.subrange(
            1,
            1 + prefix_within(rest, cutoff as int),
        ));
    }
    Ok(cmds)
}

/// Converts the playback clock's elapsed milliseconds into a cutoff in the
/// series' own fixed-point seconds: one millisecond is a thousand millionths
/// of a second.
pub fn cutoff_from_elapsed_ms(elapsed_ms: u64) -> (r: i64)
    requires
        elapsed_ms * 1000 <= i64::MAX,
    ensures
        r == elapsed_ms * 1000,
{
    (elapsed_ms as i64) * 1000
}

/// Renders every channel of an overlay at the same playback position: one
/// path builder run per channel, all over the shared time domain, each with
/// its own value codomain.
pub fn render_overlay(
    channels: &Vec<(ChartData, (i64, i64))>,
    time_domain: &Range,
    width: i64,
    elapsed_ms: u64,
) -> (r: Vec<Result<Vec<PathCommand>, ShotError>>)
    requires
        forall|i: int|
            0 <= i < channels@.len() ==> path_inputs_ok(
                (#[trigger] channels@[i]).0,
                *time_domain,
                channels@[i].1,
                width,
            ),
        elapsed_ms * 1000 <= i64::MAX,
    ensures
        r@.len() == channels@.len(),
        forall|i: int|
            0 <= i < channels@.len() ==> matches_outcome(
                #[trigger] r@[i],
                path_outcome(
                    channels@[i].0,
                    *time_domain,
                    channels@[i].1,
                    width,
                    elapsed_ms * 1000,
                ),
            ),
{
    let cutoff = cutoff_from_elapsed_ms(elapsed_ms);
    let mut out: Vec<Result<Vec<PathCommand>, ShotError>> = Vec::new();
    let mut i: usize = 0;
    while i < channels.len()
        invariant
            0 <= i <= channels@.len(),
            out@.len() == i,
            cutoff == elapsed_ms * 1000,
            forall|j: int|
                0 <= j < i ==> matches_outcome(
                    #[trigger] out@[j],
                    path_outcome(
                        channels@[j].0,
                        *time_domain,
                        channels@[j].1,
                        width,
                        elapsed_ms * 1000,
                    ),
                ),
            forall|j: int|
                0 <= j < channels@.len() ==> path_inputs_ok(
                    (#[trigger] channels@[j]).0,
                    *time_domain,
                    channels@[j].1,
                    width,
                ),
        decreases channels@.len() - i,
    {
        let path = build_path(&channels[i].0, time_domain, channels[i].1, width, cutoff);
        out.push(path);
        i += 1;
    }
    out
}

} // verus!
