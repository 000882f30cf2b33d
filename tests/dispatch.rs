use anevicon::dispatch::SocketSetup;

#[test]
fn every_destination_gets_a_socket() {
    let mut setup: SocketSetup<u32, String> = SocketSetup::new(3);
    let mut made = Vec::new();
    while let Some(i) = setup.next_destination() {
        made.push(i);
        setup.record_socket(100 + i as u32);
    }
    assert_eq!(made, vec![0, 1, 2]);
    assert_eq!(setup.finish(), Ok(vec![100, 101, 102]));
}

#[test]
fn one_failure_starts_no_worker() {
    let mut setup: SocketSetup<u32, String> = SocketSetup::new(3);
    assert_eq!(setup.next_destination(), Some(0));
    setup.record_socket(7);
    assert_eq!(setup.next_destination(), Some(1));
    setup.record_failure("address in use".to_string());
    assert_eq!(setup.next_destination(), None);
    assert_eq!(setup.finish(), Err("address in use".to_string()));
}

#[test]
fn no_destination_means_no_socket() {
    let setup: SocketSetup<u32, String> = SocketSetup::new(0);
    assert_eq!(setup.next_destination(), None);
    assert_eq!(setup.finish(), Ok(Vec::new()));
}
