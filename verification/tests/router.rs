use std::cell::RefCell;

use desktop_bridge::router::{
    decode, dispatch, fan_out, name_for, route, ControlMessage, Delivery, Payload, Registry,
    Target,
};

const BOTH: Registry = Registry { primary: true, secondary: true };
const PRIMARY_ONLY: Registry = Registry { primary: true, secondary: false };
const NONE: Registry = Registry { primary: false, secondary: false };

fn delivery(target: Target, name: &str, payload: &str) -> Delivery {
    Delivery { target, name: name.to_string(), payload: payload.to_string() }
}

#[test]
fn a_plain_event_goes_to_primary_secondary_and_broadcast() {
    let deliveries = route("msg", &Payload::Text("hello".to_string()), BOTH);
    assert_eq!(
        deliveries,
        vec![
            delivery(Target::Primary, "msg", "hello"),
            delivery(Target::Secondary, "msg", "hello"),
            delivery(Target::Broadcast, "msg", "hello"),
        ]
    );
}

#[test]
fn an_absent_secondary_window_is_passed_over() {
    let deliveries = route("msg", &Payload::Text("hello".to_string()), PRIMARY_ONLY);
    assert_eq!(
        deliveries,
        vec![delivery(Target::Primary, "msg", "hello"), delivery(Target::Broadcast, "msg", "hello")]
    );
}

#[test]
fn the_broadcast_is_served_without_any_window() {
    let deliveries = route("msg", &Payload::Text("hello".to_string()), NONE);
    assert_eq!(deliveries, vec![delivery(Target::Broadcast, "msg", "hello")]);
    assert_eq!(
        fan_out(Registry { primary: false, secondary: true }),
        vec![Target::Secondary, Target::Broadcast]
    );
    assert_eq!(fan_out(BOTH), vec![Target::Primary, Target::Secondary, Target::Broadcast]);
}

#[test]
fn a_successful_connection_is_delivered_under_its_own_name() {
    let payload = "\"SuccessfulConnection\"";
    for name in ["anything", "", "message", "SuccessfulConnection"] {
        let deliveries = route(name, &Payload::Text(payload.to_string()), BOTH);
        assert_eq!(
            deliveries,
            vec![
                delivery(Target::Primary, "SuccessfulConnection", payload),
                delivery(Target::Secondary, "SuccessfulConnection", payload),
                delivery(Target::Broadcast, "SuccessfulConnection", payload),
            ]
        );
    }
}

#[test]
fn a_user_already_connected_is_delivered_under_its_own_name() {
    let payload = "\"UserAlreadyConnected\"";
    let deliveries = route("login", &Payload::Text(payload.to_string()), PRIMARY_ONLY);
    assert_eq!(
        deliveries,
        vec![
            delivery(Target::Primary, "UserAlreadyConnected", payload),
            delivery(Target::Broadcast, "UserAlreadyConnected", payload),
        ]
    );
}

#[test]
fn a_binary_payload_is_dropped() {
    assert_eq!(route("msg", &Payload::Binary(vec![1, 2, 3]), BOTH), vec![]);
    assert_eq!(route("msg", &Payload::Binary(Vec::new()), NONE), vec![]);
    assert_eq!(
        route("msg", &Payload::Binary(b"\"SuccessfulConnection\"".to_vec()), BOTH),
        vec![]
    );
}

#[test]
fn only_a_quoted_literal_is_a_control_message() {
    assert_eq!(decode("\"SuccessfulConnection\""), Some(ControlMessage::SuccessfulConnection));
    assert_eq!(decode("\"UserAlreadyConnected\""), Some(ControlMessage::UserAlreadyConnected));
    assert_eq!(decode("SuccessfulConnection"), None);
    assert_eq!(decode("\"SuccessfulConnection"), None);
    assert_eq!(decode("SuccessfulConnection\""), None);
    assert_eq!(decode("\"\"SuccessfulConnection\"\""), None);
    assert_eq!(decode("\"successfulconnection\""), None);
    assert_eq!(decode("\"SuccessfulConnection \""), None);
    assert_eq!(decode("'SuccessfulConnection'"), None);
    assert_eq!(decode("\"hello\""), None);
    assert_eq!(decode("\"\""), None);
    assert_eq!(decode("\""), None);
    assert_eq!(decode(""), None);
    assert_eq!(decode("\"é\""), None);
}

#[test]
fn the_name_of_a_delivery_follows_the_payload() {
    assert_eq!(name_for("msg", "hello"), "msg");
    assert_eq!(name_for("msg", "\"SuccessfulConnection\""), "SuccessfulConnection");
    assert_eq!(name_for("msg", "\"UserAlreadyConnected\""), "UserAlreadyConnected");
    assert_eq!(name_for("msg", "UserAlreadyConnected"), "msg");
    assert_eq!(ControlMessage::SuccessfulConnection.as_str(), "SuccessfulConnection");
    assert_eq!(ControlMessage::UserAlreadyConnected.as_str(), "UserAlreadyConnected");
}

#[test]
fn windows_have_their_labels() {
    assert_eq!(Target::Primary.window(), Some("main"));
    assert_eq!(Target::Secondary.window(), Some("chat"));
    assert_eq!(Target::Broadcast.window(), None);
}

#[test]
fn dispatch_serves_every_target_in_order() {
    let served: RefCell<Vec<Delivery>> = RefCell::new(Vec::new());
    let report = dispatch("msg", &Payload::Text("hello".to_string()), BOTH, |delivery| {
        served.borrow_mut().push(delivery);
        Ok(())
    });
    assert_eq!(report, vec![Ok(()), Ok(()), Ok(())]);
    assert_eq!(
        served.into_inner(),
        vec![
            delivery(Target::Primary, "msg", "hello"),
            delivery(Target::Secondary, "msg", "hello"),
            delivery(Target::Broadcast, "msg", "hello"),
        ]
    );
}

#[test]
fn a_failed_delivery_does_not_stop_the_others() {
    let served: RefCell<Vec<Target>> = RefCell::new(Vec::new());
    let report = dispatch("msg", &Payload::Text("hello".to_string()), BOTH, |delivery| {
        served.borrow_mut().push(delivery.target);
        if delivery.target == Target::Secondary {
            Err("window closed".to_string())
        } else {
            Ok(())
        }
    });
    assert_eq!(report, vec![Ok(()), Err("window closed".to_string()), Ok(())]);
    assert_eq!(served.into_inner(), vec![Target::Primary, Target::Secondary, Target::Broadcast]);

    let served: RefCell<Vec<Target>> = RefCell::new(Vec::new());
    let report = dispatch("msg", &Payload::Text("hello".to_string()), BOTH, |delivery| {
        served.borrow_mut().push(delivery.target);
        Err("down".to_string())
    });
    assert_eq!(report.len(), 3);
    assert_eq!(served.into_inner(), vec![Target::Primary, Target::Secondary, Target::Broadcast]);
}

#[test]
fn dispatch_emits_nothing_for_a_binary_payload() {
    let served: RefCell<Vec<Delivery>> = RefCell::new(Vec::new());
    let report = dispatch("msg", &Payload::Binary(vec![0]), BOTH, |delivery| {
        served.borrow_mut().push(delivery);
        Ok(())
    });
    assert_eq!(report, vec![]);
    assert_eq!(served.into_inner(), vec![]);
}
