use tildagon::i2c::scan::{absent_devices, present_devices, scan_requests, ScanResult};
use tildagon::i2c::tca9548a::{Bus, BusNumber};
use tildagon::i2c::{
    next_step, Step,
    hexpansion_a_i2c_bus, hexpansion_b_i2c_bus, hexpansion_c_i2c_bus, hexpansion_d_i2c_bus,
    hexpansion_e_i2c_bus, hexpansion_f_i2c_bus, system_i2c_bus, top_i2c_bus, Operation, Transfer,
};

const CHANNELS: [BusNumber; 8] = [
    BusNumber::Bus0,
    BusNumber::Bus1,
    BusNumber::Bus2,
    BusNumber::Bus3,
    BusNumber::Bus4,
    BusNumber::Bus5,
    BusNumber::Bus6,
    BusNumber::Bus7,
];

fn select(channel: usize) -> Transfer {
    Transfer::Write { address: 0x77, bytes: vec![1 << channel] }
}

#[test]
fn select_byte_is_one_hot() {
    for (n, number) in CHANNELS.iter().enumerate() {
        assert_eq!(number.index() as usize, n);
        assert_eq!(number.mask(), 1 << n);
        assert_eq!(Bus::new(*number).select(), select(n));
    }
}

#[test]
fn write_selects_the_channel_first() {
    for (n, number) in CHANNELS.iter().enumerate() {
        let plan = Bus::new(*number).write(0x58, &[0x02, 0xFF]);
        assert_eq!(plan, vec![select(n), Transfer::Write { address: 0x58, bytes: vec![0x02, 0xFF] }]);
    }
}

#[test]
fn read_selects_the_channel_first() {
    for (n, number) in CHANNELS.iter().enumerate() {
        let plan = Bus::new(*number).read(0x68, 6);
        assert_eq!(plan, vec![select(n), Transfer::Read { address: 0x68, len: 6 }]);
    }
}

#[test]
fn write_read_selects_the_channel_first() {
    for (n, number) in CHANNELS.iter().enumerate() {
        let plan = Bus::new(*number).write_read(0x5A, &[0x00, 0x01], 2);
        assert_eq!(
            plan,
            vec![select(n), Transfer::WriteRead { address: 0x5A, bytes: vec![0x00, 0x01], len: 2 }]
        );
    }
}

#[test]
fn transaction_selects_the_channel_first() {
    for (n, number) in CHANNELS.iter().enumerate() {
        let operations =
            vec![Operation::Write { bytes: vec![0x10] }, Operation::Read { len: 1 }];
        let plan = Bus::new(*number).transaction(0x59, operations.clone());
        assert_eq!(plan, vec![select(n), Transfer::Transaction { address: 0x59, operations }]);
    }
}

#[test]
fn every_operation_selects_again() {
    let bus = Bus::new(BusNumber::Bus7);
    let first = bus.write(0x58, &[1]);
    let second = bus.write(0x58, &[2]);
    assert_eq!(first[0], select(7));
    assert_eq!(second[0], select(7));
    assert_eq!(first[0].address(), 0x77);
    assert_eq!(second[1].address(), 0x58);
}

#[test]
fn channels_are_assigned_to_the_parts_of_the_badge() {
    assert_eq!(top_i2c_bus().number(), BusNumber::Bus0);
    assert_eq!(hexpansion_a_i2c_bus().number(), BusNumber::Bus1);
    assert_eq!(hexpansion_b_i2c_bus().number(), BusNumber::Bus2);
    assert_eq!(hexpansion_c_i2c_bus().number(), BusNumber::Bus3);
    assert_eq!(hexpansion_d_i2c_bus().number(), BusNumber::Bus4);
    assert_eq!(hexpansion_e_i2c_bus().number(), BusNumber::Bus5);
    assert_eq!(hexpansion_f_i2c_bus().number(), BusNumber::Bus6);
    assert_eq!(system_i2c_bus().number(), BusNumber::Bus7);
    assert_eq!(system_i2c_bus().select(), Transfer::Write { address: 0x77, bytes: vec![0x80] });
}

#[test]
fn scan_probes_addresses_0_to_126() {
    let probes = scan_requests();
    assert_eq!(probes.len(), 127);
    for (address, probe) in probes.iter().enumerate() {
        assert_eq!(*probe, Transfer::Read { address: address as u8, len: 1 });
    }
}

#[test]
fn scan_results_are_told_apart() {
    let results = [
        ScanResult { address: 0x10, result: Err("nak") },
        ScanResult { address: 0x58, result: Ok(()) },
        ScanResult { address: 0x59, result: Ok(()) },
        ScanResult { address: 0x60, result: Err("nak") },
        ScanResult { address: 0x77, result: Ok(()) },
    ];
    assert!(!results[0].is_present());
    assert!(results[1].is_present());
    let present: Vec<u8> = present_devices(&results).iter().map(|r| r.address).collect();
    assert_eq!(present, vec![0x58, 0x59, 0x77]);
    let absent = absent_devices(&results);
    assert_eq!(absent.len(), 2);
    assert_eq!((absent[0].address, absent[0].result), (0x10, Err("nak")));
    assert_eq!((absent[1].address, absent[1].result), (0x60, Err("nak")));
    let none: [ScanResult<()>; 0] = [];
    assert!(present_devices(&none).is_empty());
    assert!(absent_devices(&none).is_empty());
}

#[test]
fn any_transfer_can_be_forwarded_on_a_channel() {
    let bus = Bus::new(BusNumber::Bus4);
    let payload = Transfer::WriteRead { address: 0x68, bytes: vec![0x00], len: 1 };
    assert_eq!(bus.forward(payload.clone()), vec![select(4), payload]);
}

#[test]
fn transfers_know_their_device() {
    assert_eq!(Transfer::Read { address: 0x10, len: 1 }.address(), 0x10);
    assert_eq!(Transfer::Write { address: 0x20, bytes: vec![] }.address(), 0x20);
    assert_eq!(Transfer::WriteRead { address: 0x30, bytes: vec![1], len: 2 }.address(), 0x30);
    assert_eq!(Transfer::Transaction { address: 0x40, operations: vec![] }.address(), 0x40);
}

#[test]
fn plan_is_performed_in_order_to_its_end() {
    assert_eq!(next_step::<()>(3, 0, Ok(())), Step::Perform { position: 0 });
    assert_eq!(next_step::<()>(3, 1, Ok(())), Step::Perform { position: 1 });
    assert_eq!(next_step::<()>(3, 2, Ok(())), Step::Perform { position: 2 });
    assert_eq!(next_step::<()>(3, 3, Ok(())), Step::Done);
    assert_eq!(next_step::<()>(0, 0, Ok(())), Step::Done);
}

#[test]
fn plan_stops_at_the_first_failure() {
    assert_eq!(next_step(2, 1, Err("nak")), Step::Failed { error: "nak" });
    assert_eq!(next_step(2, 2, Err("lost")), Step::Failed { error: "lost" });
}

#[test]
fn failed_selection_keeps_the_payload_off_the_bus() {
    let plan = Bus::new(BusNumber::Bus2).write(0x58, &[1]);
    let mut performed = Vec::new();
    let mut position = 0;
    let mut last = Ok(());
    let outcome = loop {
        match next_step(plan.len(), position, last) {
            Step::Perform { position: at } => {
                performed.push(plan[at].clone());
                last = Err("nak");
                position = at + 1;
            }
            Step::Done => break Ok(()),
            Step::Failed { error } => break Err(error),
        }
    };
    assert_eq!(outcome, Err("nak"));
    assert_eq!(performed, vec![select(2)]);
}
