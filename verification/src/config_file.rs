//! The values of the configuration file that are rules of their own: the
//! ranges of the numbers and the mounting angles.

use vstd::prelude::*;
use vstd::string::*;

verus! {

/// Lowest update rate in Hertz that the configuration file may ask for.
pub const UPDATE_RATE_MIN: i32 = 1;

/// Highest update rate in Hertz that the configuration file may ask for.
pub const UPDATE_RATE_MAX: i32 = 2;

/// Highest yaw angle in degrees; the lowest is zero.
pub const YAW_MAX: i32 = 360;

/// Highest pitch angle in degrees; the lowest is its negative.
pub const PITCH_MAX: i32 = 90;

/// Highest roll angle in degrees; the lowest is its negative.
pub const ROLL_MAX: i32 = 180;

/// The mounting angles of the inertial measurement unit in degrees.
#[derive(Debug, Clone, Copy)]
pub struct Angles {
    pub yaw: u32,
    pub pitch: i16,
    pub roll: i16,
}

impl Default for Angles {
    fn default() -> (angles: Self)
        ensures
            angles == (Angles { yaw: 0, pitch: 0, roll: 0 }),
    {
        Angles { yaw: 0, pitch: 0, roll: 0 }
    }
}

impl Angles {
    pub fn new(yaw: u32, pitch: i16, roll: i16) -> (angles: Option<Self>)
        ensures
            angles == Some(Angles { yaw, pitch, roll }),
    {
        Some(Self { yaw, pitch, roll })
    }
}

/// The number that a key of the configuration file is set to, if it is
/// within its bounds. `value` is the number that the text of the key stands
/// for, or `None` where the key is missing, empty or no number.
pub fn checked_int(value: Option<i32>, min: i32, max: i32) -> (number: Option<i32>)
    ensures
        number == match value {
            Some(v) => if min <= v <= max {
                Some(v)
            } else {
                None
            },
            None => None::<i32>,
        },
{
    match value {
        Some(v) => {
            if v >= min && v <= max {
                Some(v)
            } else {
                None
            }
        },
        None => None,
    }
}

/// The mounting angles that three numbers of the configuration file stand
/// for. They are taken only where all three are given and each is within its
/// bounds: yaw from 0 to 360, pitch from -90 to 90 and roll from -180 to 180
/// degrees.
pub open spec fn angles_of(yaw: Option<i32>, pitch: Option<i32>, roll: Option<i32>) -> Option<
    Angles,
> {
    if yaw is Some && pitch is Some && roll is Some && 0 <= yaw->0 <= YAW_MAX && -PITCH_MAX
        <= pitch->0 <= PITCH_MAX && -ROLL_MAX <= roll->0 <= ROLL_MAX {
        Some(Angles { yaw: yaw->0 as u32, pitch: pitch->0 as i16, roll: roll->0 as i16 })
    } else {
        None
    }
}

/// The mounting angles that three numbers of the configuration file stand
/// for.
pub fn imu_angles(yaw: Option<i32>, pitch: Option<i32>, roll: Option<i32>) -> (angles: Option<
    Angles,
>)
    ensures
        angles == angles_of(yaw, pitch, roll),
{
    let imu_yaw = checked_int(yaw, 0, YAW_MAX);
    let imu_pitch = checked_int(pitch, -PITCH_MAX, PITCH_MAX);
    let imu_roll = checked_int(roll, -ROLL_MAX, ROLL_MAX);
    match (imu_yaw, imu_pitch, imu_roll) {
        (Some(y), Some(p), Some(r)) => Angles::new(y as u32, p as i16, r as i16),
        _ => None,
    }
}

/// The update rate that a number of the configuration file stands for: the
/// number itself where it is 1 or 2.
pub fn update_rate(value: Option<i32>) -> (rate: Option<i32>)
    ensures
        rate == match value {
            Some(v) => if UPDATE_RATE_MIN <= v <= UPDATE_RATE_MAX {
                Some(v)
            } else {
                None
            },
            None => None::<i32>,
        },
{
    checked_int(value, UPDATE_RATE_MIN, UPDATE_RATE_MAX)
}

/// Whether the name at place `i` stands at an earlier place too.
pub open spec fn is_duplicate(names: Seq<String>, i: int) -> bool {
    exists|j: int| 0 <= j < i && (#[trigger] names[j])@ == names[i]@
}

/// The place of the first name that stands at an earlier place too, if any
/// name does. The names are the keys of the configuration file, each with
/// its section: no key may be given twice.
pub fn have_duplicates(names: &[String]) -> (found: Option<usize>)
    ensures
        match found {
            Some(i) => {
                &&& i < names@.len()
                &&& is_duplicate(names@, i as int)
                &&& forall|k: int| 0 <= k < i ==> !is_duplicate(names@, k)
            },
            None => forall|k: int| 0 <= k < names@.len() ==> !is_duplicate(names@, k),
        },
{
    let mut i: usize = 0;
    while i < names.len()
        invariant
            i <= names@.len(),
            forall|k: int| 0 <= k < i ==> !is_duplicate(names@, k),
        decreases names@.len() - i,
    {
        let mut j: usize = 0;
        while j < i
            invariant
                j <= i,
                i < names@.len(),
                forall|k: int| 0 <= k < i ==> !is_duplicate(names@, k),
                forall|m: int| 0 <= m < j ==> (#[trigger] names@[m])@ != names@[i as int]@,
            decreases i - j,
        {
            if names[j] == names[i] {
                proof {
                    assert(names@[j as int]@ == names@[i as int]@);
                }
                return Some(i);
            }
            j += 1;
        }
        proof {
            assert(!is_duplicate(names@, i as int));
        }
        i += 1;
    }
    None
}

} // verus!
