use vstd::prelude::*;

verus! {

/// Reads the system clock with `std::time::SystemTime::now` and measures it from
/// the Unix epoch with `duration_since`: whether the reading lies before the epoch
/// (the `Err` arm, whose `SystemTimeError::duration` says how far before), and the
/// distance in whole microseconds (`Duration::as_micros`). Nothing is promised of
/// the values: they are whatever the machine's clock says.
#[verifier::external_body]
fn read_system_clock() -> (r: (bool, u128)) {
    match std::time::SystemTime::now().duration_since(std::time::UNIX_EPOCH) {
        Ok(d) => (false, d.as_micros()),
        Err(e) => (true, e.duration().as_micros()),
    }
}

/// A clock reading as signed microseconds since the epoch: negative before it, and
/// held at the bounds of `i64` beyond them (some 292,000 years away).
pub open spec fn spec_clock_micros(before_epoch: bool, micros: u128) -> i64 {
    if before_epoch {
        if micros > 0x8000_0000_0000_0000 { i64::MIN } else { (-(micros as int)) as i64 }
    } else {
        if micros > 0x7fff_ffff_ffff_ffff { i64::MAX } else { micros as i64 }
    }
}

/// Turns a reading (before the epoch or not, and how far from it) into signed
/// microseconds since the epoch.
pub fn clock_micros(before_epoch: bool, micros: u128) -> (t: i64)
    ensures
        t == spec_clock_micros(before_epoch, micros),
{
    if before_epoch {
        if micros > 0x8000_0000_0000_0000 {
            i64::MIN
        } else {
            let m: i128 = micros as i128;
            (0 - m) as i64
        }
    } else {
        if micros > 0x7fff_ffff_ffff_ffff {
            i64::MAX
        } else {
            micros as i64
        }
    }
}

/// The current time in microseconds since the Unix epoch; a clock set before the
/// epoch gives a negative time.
pub(crate) fn now_micros() -> (t: i64) {
    let (before_epoch, micros) = read_system_clock();
    clock_micros(before_epoch, micros)
}

} // verus!
