use porcupine::procedure::{route_message, translate, MessageKind, Route};
use porcupine::Event;

#[test]
fn null_or_dead_handle_is_rejected() {
    assert_eq!(route_message(0, true, MessageKind::Create, true), Route::Reject);
    assert_eq!(route_message(10, false, MessageKind::PreCreate, false), Route::Reject);
}

#[test]
fn pre_create_installs_state() {
    assert_eq!(route_message(10, true, MessageKind::PreCreate, false), Route::Install);
    assert_eq!(route_message(10, true, MessageKind::PreCreate, true), Route::Desync);
}

#[test]
fn post_destroy_tears_down_state() {
    assert_eq!(route_message(10, true, MessageKind::PostDestroy, true), Route::TearDown);
    assert_eq!(route_message(10, true, MessageKind::PostDestroy, false), Route::Desync);
}

#[test]
fn create_is_dispatched_as_created_event() {
    assert_eq!(
        route_message(10, true, MessageKind::Create, true),
        Route::Dispatch(Some(Event::Created))
    );
}

#[test]
fn unknown_message_is_dispatched_without_event() {
    assert_eq!(route_message(10, true, MessageKind::Other(0x0200), true), Route::Dispatch(None));
    assert_eq!(route_message(10, true, MessageKind::SizeQuery, true), Route::Dispatch(None));
}

#[test]
fn size_query_before_creation_is_forwarded() {
    assert_eq!(route_message(10, true, MessageKind::SizeQuery, false), Route::Early);
}

#[test]
fn message_without_state_is_a_desync() {
    assert_eq!(route_message(10, true, MessageKind::Create, false), Route::Desync);
    assert_eq!(route_message(10, true, MessageKind::Other(0x000F), false), Route::Desync);
}

#[test]
fn translate_knows_only_create() {
    assert_eq!(translate(MessageKind::Create), Some(Event::Created));
    assert_eq!(translate(MessageKind::PreCreate), None);
    assert_eq!(translate(MessageKind::Other(1)), None);
}
