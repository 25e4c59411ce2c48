use tunrelay::dial::{
    resolve_binding, BindingError, BindingMethod, DialAttempt, DialStep, OutboundBinding,
};

fn run_dial(outcomes: &[bool]) -> (Vec<DialStep>, DialAttempt) {
    let mut attempt = DialAttempt::new();
    let mut taken = Vec::new();
    for ok in outcomes {
        if let Some(step) = attempt.next_step() {
            taken.push(step);
        }
        attempt.record(*ok);
    }
    (taken, attempt)
}

#[test]
fn binding_by_name_uses_the_interface_name() {
    assert_eq!(
        resolve_binding(BindingMethod::DeviceName, Some(2), Some("eth0".to_string())),
        Ok(OutboundBinding::DeviceName("eth0".to_string()))
    );
}

#[test]
fn binding_by_index_uses_the_index() {
    assert_eq!(
        resolve_binding(BindingMethod::DeviceIndex, Some(14), None),
        Ok(OutboundBinding::DeviceIndex(14))
    );
    assert_eq!(
        resolve_binding(BindingMethod::DeviceIndex, Some(14), Some("en0".to_string())),
        Ok(OutboundBinding::DeviceIndex(14))
    );
}

#[test]
fn binding_by_option_carries_the_index_in_network_order() {
    assert_eq!(
        resolve_binding(BindingMethod::UnicastOption, Some(5), None),
        Ok(OutboundBinding::UnicastOption([0, 0, 0, 5]))
    );
    assert_eq!(
        resolve_binding(BindingMethod::UnicastOption, Some(0x0102_0304), None),
        Ok(OutboundBinding::UnicastOption([1, 2, 3, 4]))
    );
    assert_eq!(
        resolve_binding(BindingMethod::UnicastOption, Some(258), None),
        Ok(OutboundBinding::UnicastOption(258u32.to_be_bytes()))
    );
}

#[test]
fn no_binding_without_an_interface() {
    for method in
        [BindingMethod::DeviceName, BindingMethod::DeviceIndex, BindingMethod::UnicastOption]
    {
        assert_eq!(
            resolve_binding(method, None, Some("eth0".to_string())),
            Err(BindingError::NoInterface)
        );
        assert_eq!(
            resolve_binding(method, Some(0), Some("eth0".to_string())),
            Err(BindingError::NoInterface)
        );
    }
}

#[test]
fn binding_by_name_needs_a_name() {
    assert_eq!(
        resolve_binding(BindingMethod::DeviceName, Some(2), None),
        Err(BindingError::NoName)
    );
    assert_eq!(
        resolve_binding(BindingMethod::DeviceName, Some(2), Some(String::new())),
        Err(BindingError::NoName)
    );
}

#[test]
fn a_dial_takes_its_steps_in_order() {
    let (taken, attempt) = run_dial(&[true, true, true, true]);
    assert_eq!(
        taken,
        vec![DialStep::OpenSocket, DialStep::Bind, DialStep::SetNonBlocking, DialStep::Connect]
    );
    assert_eq!(attempt.next_step(), None);
    assert_eq!(attempt.result(), Some(Ok(())));
}

#[test]
fn a_dial_has_no_result_while_steps_are_left() {
    let attempt = DialAttempt::new();
    assert_eq!(attempt.next_step(), Some(DialStep::OpenSocket));
    assert_eq!(attempt.result(), None);
    let (_, attempt) = run_dial(&[true, true, true]);
    assert_eq!(attempt.next_step(), Some(DialStep::Connect));
    assert_eq!(attempt.result(), None);
}

#[test]
fn a_dial_ends_at_the_step_that_fails() {
    let cases = [
        (vec![false], DialStep::OpenSocket, 1),
        (vec![true, false], DialStep::Bind, 2),
        (vec![true, true, false], DialStep::SetNonBlocking, 3),
        (vec![true, true, true, false], DialStep::Connect, 4),
    ];
    for (outcomes, failed, steps) in cases {
        let (taken, attempt) = run_dial(&outcomes);
        assert_eq!(taken.len(), steps);
        assert_eq!(attempt.next_step(), None);
        assert_eq!(attempt.result(), Some(Err(failed)));
    }
}

#[test]
fn connect_is_never_tried_after_a_failed_bind() {
    let (taken, attempt) = run_dial(&[true, false, true, true, true]);
    assert_eq!(taken, vec![DialStep::OpenSocket, DialStep::Bind]);
    assert!(!taken.contains(&DialStep::Connect));
    assert_eq!(attempt.result(), Some(Err(DialStep::Bind)));
}

#[test]
fn outcomes_after_the_end_change_nothing() {
    let (_, mut attempt) = run_dial(&[true, true, true, true]);
    attempt.record(false);
    assert_eq!(attempt.result(), Some(Ok(())));
    let (_, mut attempt) = run_dial(&[false]);
    attempt.record(true);
    assert_eq!(attempt.result(), Some(Err(DialStep::OpenSocket)));
}
