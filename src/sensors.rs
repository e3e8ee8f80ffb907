use vstd::prelude::*;
use vstd::string::StrSliceExecFns;

verus! {

/// One thermal component of the host: its label and its temperature in
/// thousandths of a degree Celsius.
pub struct SensorReading {
    pub label: String,
    pub millidegrees: i64,
}

/// Whether `s` holds `CPU` starting at position `j`.
pub open spec fn cpu_at(s: Seq<char>, j: int) -> bool {
    &&& 0 <= j
    &&& j + 3 <= s.len()
    &&& s[j] == 'C'
    &&& s[j + 1] == 'P'
    &&& s[j + 2] == 'U'
}

pub open spec fn mentions_cpu(s: Seq<char>) -> bool {
    exists|j: int| #[trigger] cpu_at(s, j)
}

/// The temperature of the first component whose label mentions `CPU`.
pub open spec fn first_cpu_reading(readings: Seq<SensorReading>) -> Option<i64>
    decreases readings.len(),
{
    if readings.len() == 0 {
        None
    } else if mentions_cpu(readings[0].label@) {
        Some(readings[0].millidegrees)
    } else {
        first_cpu_reading(readings.drop_first())
    }
}

fn label_mentions_cpu(label: &str) -> (r: bool)
    ensures
        r == mentions_cpu(label@),
{
    let n = label.unicode_len();
    let mut j: usize = 0;
    while n >= 3 && j <= n - 3
        invariant
            n == label@.len(),
            j <= n,
            forall|k: int| 0 <= k < j ==> !#[trigger] cpu_at(label@, k),
        decreases n - j,
    {
        if label.get_char(j) == 'C' && label.get_char(j + 1) == 'P' && label.get_char(j + 2) == 'U' {
            assert(cpu_at(label@, j as int));
            return true;
        }
        j = j + 1;
    }
    assert forall|k: int| !#[trigger] cpu_at(label@, k) by {
        if 0 <= k < j {
        }
    }
    false
}

/// The CPU temperature among the host's thermal components: the reading of
/// the first one whose label mentions `CPU`; `None` when no label does.
pub fn cpu_temp(readings: &Vec<SensorReading>) -> (r: Option<i64>)
    ensures
        r == first_cpu_reading(readings@),
{
    let mut i: usize = 0;
    assert(readings@.subrange(0, readings@.len() as int) =~= readings@);
    while i < readings.len()
        invariant
            i <= readings@.len(),
            first_cpu_reading(readings@) == first_cpu_reading(readings@.subrange(i as int, readings@.len() as int)),
        decreases readings@.len() - i,
    {
        let rest = Ghost(readings@.subrange(i as int, readings@.len() as int));
        assert(rest@.drop_first() =~= readings@.subrange(i + 1, readings@.len() as int));
        if label_mentions_cpu(readings[i].label.as_str()) {
            return Some(readings[i].millidegrees);
        }
        i = i + 1;
    }
    None
}

} // verus!
