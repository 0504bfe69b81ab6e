use vstd::prelude::*;
use crate::datapoint::{Datapoint, DatapointView, points_view};
use crate::reader::{ReaderView, SensorReader};
use crate::sensor::Sensor;

verus! {

/// The readers of one cycle, one per configured sensor, in configuration order.
pub fn readers_for(sensors: &Vec<Sensor>, resolution: i32, max_attempts: Option<u64>) -> (r: Vec<
    SensorReader,
>)
    ensures
        r@.len() == sensors@.len(),
        forall|i: int|
            0 <= i < sensors@.len() ==> (#[trigger] r@[i])@ == (ReaderView {
                sensor: sensors@[i]@,
                resolution,
                max_attempts,
                attempts: 0,
            }),
{
    let mut r: Vec<SensorReader> = Vec::new();
    let mut i: usize = 0;
    while i < sensors.len()
        invariant
            i <= sensors@.len(),
            r@.len() == i,
            forall|j: int|
                0 <= j < i ==> (#[trigger] r@[j])@ == (ReaderView {
                    sensor: sensors@[j]@,
                    resolution,
                    max_attempts,
                    attempts: 0,
                }),
        decreases sensors@.len() - i,
    {
        r.push(SensorReader::new(sensors[i].duplicate(), resolution, max_attempts));
        i = i + 1;
    }
    r
}

/// The datapoints of several samples, one after the other.
pub open spec fn flat_points(samples: Seq<Seq<DatapointView>>) -> Seq<DatapointView>
    decreases samples.len(),
{
    if samples.len() == 0 {
        Seq::empty()
    } else {
        flat_points(samples.drop_last()) + samples.last()
    }
}

/// The models of several samples.
pub open spec fn samples_view(samples: Seq<Vec<Datapoint>>) -> Seq<Seq<DatapointView>> {
    samples.map_values(|v: Vec<Datapoint>| points_view(v@))
}

/// Merges the samples of the sensors of one cycle into the single list that is
/// submitted, keeping the order of the sensors and of each sensor's points.
pub fn merge_samples(samples: Vec<Vec<Datapoint>>) -> (r: Vec<Datapoint>)
    ensures
        points_view(r@) == flat_points(samples_view(samples@)),
{
    let ghost all = samples@;
    let mut rest = samples;
    let mut r: Vec<Datapoint> = Vec::new();
    let mut i: usize = 0;
    let n = rest.len();
    while i < n
        invariant
            n == all.len(),
            i <= n,
            rest@ == all.subrange(i as int, n as int),
            points_view(r@) == flat_points(samples_view(all.subrange(0, i as int))),
        decreases n - i,
    {
        let mut next = rest.remove(0);
        proof {
            let before = samples_view(all.subrange(0, i as int));
            let after = samples_view(all.subrange(0, i + 1));
            assert(after.drop_last() =~= before);
            assert(after.last() == points_view(next@));
        }
        let ghost r0 = r@;
        let ghost n0 = next@;
        r.append(&mut next);
        proof {
            assert(points_view(r@) =~= points_view(r0) + points_view(n0));
        }
        i = i + 1;
    }
    assert(all.subrange(0, n as int) =~= all);
    r
}

/// When every sensor of a cycle contributes two datapoints, the merged sample
/// holds exactly two datapoints per sensor.
pub proof fn merged_sample_has_two_points_per_sensor(samples: Seq<Seq<DatapointView>>)
    requires
        forall|i: int| 0 <= i < samples.len() ==> (#[trigger] samples[i]).len() == 2,
    ensures
        flat_points(samples).len() == 2 * samples.len(),
    decreases samples.len(),
{
    if samples.len() > 0 {
        merged_sample_has_two_points_per_sensor(samples.drop_last());
    }
}

/// When every datapoint of every sensor's sample carries the cycle's
/// resolution as its interval, so does every datapoint of the merged sample.
pub proof fn merged_sample_keeps_resolution(samples: Seq<Seq<DatapointView>>, resolution: i32)
    requires
        forall|i: int, j: int|
            0 <= i < samples.len() && 0 <= j < samples[i].len() ==> (#[trigger] samples[i][j]).interval
                == resolution,
    ensures
        forall|k: int|
            0 <= k < flat_points(samples).len() ==> (#[trigger] flat_points(samples)[k]).interval
                == resolution,
    decreases samples.len(),
{
    if samples.len() > 0 {
        let init = samples.drop_last();
        assert forall|i: int, j: int|
            0 <= i < init.len() && 0 <= j < init[i].len() implies (#[trigger] init[i][j]).interval
                == resolution by {
            assert(init[i] == samples[i]);
        }
        merged_sample_keeps_resolution(init, resolution);
        let last = samples.last();
        assert forall|k: int| 0 <= k < flat_points(samples).len() implies (#[trigger] flat_points(
            samples,
        )[k]).interval == resolution by {
            let front = flat_points(init);
            if k >= front.len() {
                assert(flat_points(samples)[k] == last[k - front.len()]);
                assert(last == samples[samples.len() - 1]);
            } else {
                assert(flat_points(samples)[k] == front[k]);
            }
        }
    }
}

} // verus!
