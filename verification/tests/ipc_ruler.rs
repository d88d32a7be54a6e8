use tfc::ipc_ruler::{ConnectionChange, IpcRuler, RulerError, SignalRecord, SlotRecord};

fn signal(name: &str, t: u8, at: u64) -> SignalRecord {
    SignalRecord {
        name: name.to_string(),
        sig_type: t,
        created_by: "tester".to_string(),
        created_at: at,
        last_registered: at,
        description: "test_description".to_string(),
    }
}

fn slot(name: &str, t: u8, at: u64) -> SlotRecord {
    SlotRecord {
        name: name.to_string(),
        slot_type: t,
        created_by: "tester".to_string(),
        created_at: at,
        last_registered: at,
        last_modified: at,
        modified_by: "".to_string(),
        connected_to: "".to_string(),
        description: "test_description".to_string(),
    }
}

#[test]
fn test_register_signal() {
    let mut ruler = IpcRuler::new();
    ruler.register_signal_impl(signal("test_signal", 1, 10));
    assert!(ruler.signals().iter().any(|s| s.name == "test_signal"));
}

#[test]
fn test_register_slot() {
    let mut ruler = IpcRuler::new();
    let connected = ruler.register_slot_impl(slot("test_slot", 1, 10));
    assert_eq!(connected, "");
    assert!(ruler.slots().iter().any(|s| s.name == "test_slot"));
}

#[test]
fn test_slot_reregistration() {
    let mut ruler = IpcRuler::new();
    ruler.register_slot_impl(slot("test_slot", 1, 10));
    assert!(ruler.slots().iter().any(|s| s.name == "test_slot"));
    ruler.register_slot_impl(slot("test_slot", 1, 20));
    assert!(ruler.slots().len() == 1);
    assert_eq!(ruler.slots()[0].created_at, 10);
    assert_eq!(ruler.slots()[0].last_registered, 20);
}

#[test]
fn signal_reregistration_keeps_creation_time() {
    let mut ruler = IpcRuler::new();
    ruler.register_signal_impl(signal("s", 1, 10));
    ruler.register_signal_impl(signal("s", 2, 30));
    assert_eq!(ruler.signals().len(), 1);
    assert_eq!(ruler.signals()[0].created_at, 10);
    assert_eq!(ruler.signals()[0].sig_type, 2);
    assert_eq!(ruler.signals()[0].last_registered, 30);
}

#[test]
fn connect_and_reregister_keeps_connection() {
    let mut ruler = IpcRuler::new();
    ruler.register_signal_impl(signal("sig", 1, 1));
    ruler.register_signal_impl(signal("other", 3, 1));
    ruler.register_slot_impl(slot("slot", 1, 1));
    assert_eq!(
        ruler.connect_impl(ConnectionChange { slot_name: "nope".to_string(), signal_name: "sig".to_string() }),
        Err(RulerError::QueryReturnedNoRows)
    );
    assert_eq!(
        ruler.connect_impl(ConnectionChange { slot_name: "slot".to_string(), signal_name: "nope".to_string() }),
        Err(RulerError::QueryReturnedNoRows)
    );
    assert_eq!(
        ruler.connect_impl(ConnectionChange { slot_name: "slot".to_string(), signal_name: "other".to_string() }),
        Err(RulerError::QueryReturnedNoRows)
    );
    assert_eq!(
        ruler.connect_impl(ConnectionChange { slot_name: "slot".to_string(), signal_name: "sig".to_string() }),
        Ok(())
    );
    assert_eq!(ruler.slots()[0].connected_to, "sig");
    let answer = ruler.register_slot_impl(slot("slot", 1, 5));
    assert_eq!(answer, "sig");
    assert_eq!(ruler.slots()[0].connected_to, "sig");
    let conns = ruler.connections_impl();
    assert_eq!(conns, vec![("sig".to_string(), vec!["slot".to_string()])]);
    assert_eq!(ruler.slots_connected_to("other"), Vec::<String>::new());
    // disconnecting asks for the signal with the empty name, which is not registered
    assert_eq!(ruler.disconnect_impl("slot".to_string()), Err(RulerError::QueryReturnedNoRows));
    assert_eq!(ruler.slots()[0].connected_to, "sig");
}
