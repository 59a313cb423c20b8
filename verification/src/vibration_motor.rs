//! The pattern in which the vibration motor runs.

use vstd::prelude::*;

verus! {

/// One thing that the caller does to the motor.
#[derive(Clone, Copy, Debug, PartialEq, Eq, Structural)]
pub enum MotorStep {
    /// Switch the motor on.
    Enable,
    /// Switch the motor off.
    Disable,
    /// Wait for one interval.
    Wait,
}

/// The steps of `times` vibrations: the motor runs for one interval and rests
/// for one, and does not rest after the last.
pub open spec fn linear_pattern(times: nat) -> Seq<MotorStep>
    decreases times,
{
    if times <= 1 {
        seq![MotorStep::Enable, MotorStep::Wait, MotorStep::Disable]
    } else {
        seq![MotorStep::Enable, MotorStep::Wait, MotorStep::Disable, MotorStep::Wait]
            + linear_pattern((times - 1) as nat)
    }
}

/// The pattern has four steps a vibration, less the rest after the last.
pub proof fn lemma_linear_pattern_len(times: nat)
    requires
        times >= 1,
    ensures
        linear_pattern(times).len() == 4 * times - 1,
    decreases times,
{
    if times > 1 {
        lemma_linear_pattern_len((times - 1) as nat);
    }
}

proof fn lemma_linear_pattern_grows(times: nat)
    requires
        times >= 1,
    ensures
        linear_pattern(times + 1) == seq![
            MotorStep::Enable,
            MotorStep::Wait,
            MotorStep::Disable,
            MotorStep::Wait,
        ] + linear_pattern(times),
{
}

/// The steps that make the motor vibrate `times` times.
pub fn vibrate_linear(times: u8) -> (steps: Vec<MotorStep>)
    requires
        times >= 1,
    ensures
        steps@ == linear_pattern(times as nat),
{
    let mut steps: Vec<MotorStep> = Vec::new();
    let mut done: u8 = 0;
    while done < times - 1
        invariant
            times >= 1,
            done <= times - 1,
            steps@ + linear_pattern((times - done) as nat) == linear_pattern(times as nat),
        decreases times - done,
    {
        let ghost before = steps@;
        steps.push(MotorStep::Enable);
        steps.push(MotorStep::Wait);
        steps.push(MotorStep::Disable);
        steps.push(MotorStep::Wait);
        done += 1;
        proof {
            let rest = linear_pattern((times - done) as nat);
            lemma_linear_pattern_grows((times - done) as nat);
            assert(steps@ + rest =~= before + (seq![
                MotorStep::Enable,
                MotorStep::Wait,
                MotorStep::Disable,
                MotorStep::Wait,
            ] + rest));
        }
    }

    // Let's not wait after the last vibration
    let ghost before = steps@;
    steps.push(MotorStep::Enable);
    steps.push(MotorStep::Wait);
    steps.push(MotorStep::Disable);
    assert(steps@ =~= before + linear_pattern(1));
    steps
}

} // verus!
