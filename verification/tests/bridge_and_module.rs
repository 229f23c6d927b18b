use libtxc::callback::{dispatch, panic_reason, Dispatch, HandlerSlot, Settled};
use libtxc::ffi::{reply_outcome, EntryPoint, FunctionTable};
use libtxc::TCStr;

const ORDER: [EntryPoint; 6] = [
    EntryPoint::Initialize,
    EntryPoint::SetLogLevel,
    EntryPoint::SendCommand,
    EntryPoint::SetCallbackEx,
    EntryPoint::FreeMemory,
    EntryPoint::UnInitialize,
];

#[test]
fn delivery_of_a_buffer_invokes_the_handler() {
    assert!(matches!(dispatch(0x7fff_0010), Dispatch::Invoke(0x7fff_0010)));
    assert!(matches!(dispatch(1), Dispatch::Invoke(1)));
}

#[test]
fn delivery_of_null_aborts_with_the_internal_error_text() {
    match dispatch(0) {
        Dispatch::Abort(text) => {
            assert!(text.starts_with("Внутренняя ошибка/exception коннектора"));
            assert!(text.ends_with("наgithub.\nКоннектор вернул нулевой указатель"));
        }
        other => panic!("{:?}", other),
    }
}

#[test]
fn panic_is_reported_with_its_text_or_as_unknown() {
    assert_eq!(panic_reason(Some("index out of bounds".to_string())), "index out of bounds");
    assert_eq!(panic_reason(Some(String::new())), "");
    assert_eq!(panic_reason(None), "Неизвестная причина");
}

#[test]
fn first_registration_releases_nothing() {
    let mut slot: HandlerSlot<&str> = HandlerSlot::new();
    assert!(!slot.is_occupied());
    assert!(matches!(slot.settle(true, "first"), Settled::Replaced(None)));
    assert!(slot.is_occupied());
}

#[test]
fn successful_replacement_releases_the_old_handler() {
    let mut slot: HandlerSlot<u32> = HandlerSlot::new();
    assert!(matches!(slot.settle(true, 1), Settled::Replaced(None)));
    assert!(matches!(slot.settle(true, 2), Settled::Replaced(Some(1))));
    assert!(matches!(slot.settle(true, 3), Settled::Replaced(Some(2))));
    assert!(slot.is_occupied());
}

#[test]
fn failed_registration_keeps_the_old_handler() {
    let mut slot: HandlerSlot<u32> = HandlerSlot::new();
    assert!(matches!(slot.settle(false, 1), Settled::Refused(1)));
    assert!(!slot.is_occupied());
    assert!(matches!(slot.settle(true, 2), Settled::Replaced(None)));
    assert!(matches!(slot.settle(false, 3), Settled::Refused(3)));
    assert!(slot.is_occupied());
    assert!(matches!(slot.settle(true, 4), Settled::Replaced(Some(2))));
}

#[test]
fn entry_points_are_looked_up_in_order() {
    for (i, ep) in ORDER.iter().enumerate() {
        assert_eq!(ep.index(), i);
        assert_eq!(EntryPoint::from_index(i), Some(*ep));
    }
    assert_eq!(EntryPoint::from_index(6), None);
    assert_eq!(EntryPoint::from_index(usize::MAX), None);
}

#[test]
fn entry_point_symbols_are_terminated() {
    let names = ["Initialize", "SetLogLevel", "SendCommand", "SetCallbackEx", "FreeMemory", "UnInitialize"];
    for (ep, name) in ORDER.iter().zip(names) {
        assert_eq!(ep.symbol(), format!("{}\0", name));
        assert_eq!(ep.missing_message(), format!("Не удалось получить адресс функции {}\0", name));
    }
}

#[test]
fn complete_module_gives_a_table() {
    let addresses = [0x10, 0x20, 0x30, 0x40, 0x50, 0x60];
    let table = match FunctionTable::resolve(&addresses) {
        Ok(t) => t,
        Err(ep) => panic!("{:?}", ep),
    };
    for (i, ep) in ORDER.iter().enumerate() {
        assert_eq!(table.address(*ep), addresses[i]);
    }
}

#[test]
fn module_missing_one_export_gives_no_table() {
    for (i, ep) in ORDER.iter().enumerate() {
        let mut addresses = [0x10usize, 0x20, 0x30, 0x40, 0x50, 0x60];
        addresses[i] = 0;
        assert_eq!(FunctionTable::resolve(&addresses).err(), Some(*ep));
    }
}

#[test]
fn first_missing_export_is_the_one_reported() {
    assert_eq!(FunctionTable::resolve(&[1, 0, 3, 0, 5, 0]).err(), Some(EntryPoint::SetLogLevel));
    assert_eq!(FunctionTable::resolve(&[0; 6]).err(), Some(EntryPoint::Initialize));
    assert_eq!(FunctionTable::resolve(&[1, 2, 3, 4, 5, 0]).err(), Some(EntryPoint::UnInitialize));
}

#[test]
fn null_reply_to_a_management_call_is_success() {
    assert_eq!(reply_outcome(None), Ok(()));
}

#[test]
fn reply_to_a_management_call_is_the_failure_text() {
    assert_eq!(
        reply_outcome(Some(TCStr::new(b"<error>log dir</error>\0"))),
        Err("<error>log dir</error>".to_string())
    );
    assert_eq!(reply_outcome(Some(TCStr::new(&[0xfe, 0]))), Err("\u{fffd}".to_string()));
}
