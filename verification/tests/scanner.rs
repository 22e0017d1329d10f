use blackmagic_c2::agent::arp::{arp_request, parse_arp_reply, Sighting, FRAME_LEN};
use blackmagic_c2::agent::hyperdeck::HyperDeckResponse;
use blackmagic_c2::agent::net::{Ipv4Address, MacAddress};
use blackmagic_c2::agent::network_scanner::{
    probe_device, probe_response, time_since, NetworkScanner, ProbeError, ProbeTarget, Vendor,
    DEVICE_TIMEOUT_MS, PROBE_COMMAND, PROBE_INTERVAL_MS, SCAN_INTERVAL_MS, SCAN_TIMEOUT_MS,
};
use blackmagic_c2::agent::sweep::{
    merge_results, scan_network, ArpProbe, Interface, IpNetwork, ReceiveEvent, SweepError,
    SweepResult,
};
use blackmagic_c2::common::{HyperDeckDetails, NetworkDevice, NetworkDeviceDetails};

fn mac(last: u8) -> MacAddress {
    MacAddress::new(0xaa, 0xbb, 0xcc, 0xdd, 0xee, last)
}

fn seen(hosts: &[(MacAddress, Ipv4Address)]) -> SweepResult {
    let mut result = SweepResult::new();
    for (mac, ip) in hosts {
        result.insert(mac, *ip);
    }
    result
}

fn reply_from(sender_mac: &MacAddress, sender_ip: &Ipv4Address) -> Vec<u8> {
    let mut frame = vec![0u8; 42];
    frame[12] = 0x08;
    frame[13] = 0x06;
    frame[14..22].copy_from_slice(&[0, 1, 8, 0, 6, 4, 0, 2]);
    frame[22..28].copy_from_slice(&sender_mac.octets);
    frame[28..32].copy_from_slice(&sender_ip.octets);
    frame
}

fn interface(ips: Vec<IpNetwork>) -> Interface {
    Interface { mac: mac(0x10), ips, loopback: false, flags: 0x1043 }
}

#[test]
fn scan_networks() {
    let interfaces = vec![
        Interface {
            mac: mac(1),
            ips: vec![IpNetwork::V4 { address: Ipv4Address::new(127, 0, 0, 1), prefix: 8 }],
            loopback: true,
            flags: 0x49,
        },
        interface(vec![IpNetwork::V4 { address: Ipv4Address::new(10, 0, 0, 7), prefix: 30 }]),
        Interface {
            mac: mac(3),
            ips: vec![IpNetwork::V4 { address: Ipv4Address::new(10, 8, 0, 1), prefix: 24 }],
            loopback: false,
            flags: 0x10d1,
        },
        interface(vec![IpNetwork::V6 { prefix: 64 }]),
        interface(vec![]),
    ];
    let chosen = blackmagic_c2::agent::sweep::scan_networks(&interfaces);
    assert_eq!(chosen, vec![1]);

    let mut result = SweepResult::new();
    for index in chosen {
        for probe in scan_network(&interfaces[index]) {
            if probe.target == Ipv4Address::new(10, 0, 0, 5) {
                let answer = reply_from(&mac(5), &probe.target);
                assert_eq!(result.on_receive(&ReceiveEvent::Frame(answer)), Ok(()));
            }
        }
    }
    assert!(result.len() > 0);
    assert_eq!(result.get(&mac(5)), Some(Ipv4Address::new(10, 0, 0, 5)));
}

#[test]
fn timing_constants() {
    assert_eq!(SCAN_INTERVAL_MS, 15_000);
    assert_eq!(SCAN_TIMEOUT_MS, 8_000);
    assert_eq!(DEVICE_TIMEOUT_MS, 60_000);
    assert_eq!(PROBE_INTERVAL_MS, 60_000);
    assert_eq!(PROBE_COMMAND, "device info");
}

#[test]
fn mac_address_is_written_in_lower_case_hex() {
    assert_eq!(MacAddress::new(0xAA, 0xBB, 0xCC, 0xDD, 0xEE, 0x01).to_string(), "aa:bb:cc:dd:ee:01");
    assert_eq!(MacAddress::new(0, 1, 0x0f, 0x10, 0x7c, 0xff).to_string(), "00:01:0f:10:7c:ff");
    assert_eq!(MacAddress::broadcast().to_string(), "ff:ff:ff:ff:ff:ff");
}

#[test]
fn mac_address_and_its_number() {
    let address = MacAddress::new(0x7c, 0x2e, 0x0d, 0x01, 0x02, 0x03);
    assert_eq!(address.to_u64(), 0x7c2e_0d01_0203);
    assert_eq!(MacAddress::from_u64(0x7c2e_0d01_0203), address);
    assert_eq!(MacAddress::from_u64(0xffff_7c2e_0d01_0203), address);
    assert_eq!(MacAddress::broadcast().to_u64(), 0xffff_ffff_ffff);
}

#[test]
fn ipv4_address_is_written_in_dotted_decimal() {
    assert_eq!(Ipv4Address::new(10, 0, 0, 1).to_string(), "10.0.0.1");
    assert_eq!(Ipv4Address::new(192, 168, 100, 99).to_string(), "192.168.100.99");
    assert_eq!(Ipv4Address::new(255, 255, 255, 255).to_string(), "255.255.255.255");
    assert_eq!(Ipv4Address::new(0, 9, 10, 109).to_string(), "0.9.10.109");
}

#[test]
fn ipv4_address_and_its_number() {
    assert_eq!(Ipv4Address::new(10, 0, 0, 1).to_u32(), 0x0a00_0001);
    assert_eq!(Ipv4Address::from_u32(0xc0a8_0164), Ipv4Address::new(192, 168, 1, 100));
    assert_eq!(Ipv4Address::from_u32(u32::MAX).to_u32(), u32::MAX);
}

#[test]
fn arp_request_is_the_42_byte_broadcast_frame() {
    let frame = arp_request(
        &MacAddress::new(0x02, 0x00, 0x00, 0x00, 0x00, 0x01),
        &Ipv4Address::new(10, 0, 0, 7),
        &Ipv4Address::new(10, 0, 0, 5),
    );
    assert_eq!(frame.len(), FRAME_LEN);
    assert_eq!(
        frame,
        vec![
            0xff, 0xff, 0xff, 0xff, 0xff, 0xff, 0x02, 0x00, 0x00, 0x00, 0x00, 0x01, 0x08, 0x06,
            0x00, 0x01, 0x08, 0x00, 0x06, 0x04, 0x00, 0x01, 0x02, 0x00, 0x00, 0x00, 0x00, 0x01,
            10, 0, 0, 7, 0xff, 0xff, 0xff, 0xff, 0xff, 0xff, 10, 0, 0, 5,
        ]
    );
    assert_eq!(parse_arp_reply(&frame), None);
}

#[test]
fn only_arp_replies_are_read() {
    let sender = MacAddress::new(0x7c, 0x2e, 0x0d, 0x00, 0x00, 0x09);
    let address = Ipv4Address::new(10, 0, 0, 9);
    let reply = reply_from(&sender, &address);
    assert_eq!(parse_arp_reply(&reply), Some(Sighting { mac: sender, ip: address }));
    assert_eq!(parse_arp_reply(&reply[..41]), None);
    let mut other_ethertype = reply.clone();
    other_ethertype[13] = 0x00;
    assert_eq!(parse_arp_reply(&other_ethertype), None);
    let mut request = reply.clone();
    request[21] = 1;
    assert_eq!(parse_arp_reply(&request), None);
    let mut padded = reply.clone();
    padded.extend_from_slice(&[0; 18]);
    assert_eq!(parse_arp_reply(&padded), Some(Sighting { mac: sender, ip: address }));
}

#[test]
fn sweep_covers_every_address_of_the_network() {
    let own = Ipv4Address::new(10, 0, 0, 6);
    let plan = scan_network(&interface(vec![IpNetwork::V4 { address: own, prefix: 30 }]));
    assert_eq!(
        plan,
        vec![
            ArpProbe { sender_ip: own, target: Ipv4Address::new(10, 0, 0, 4) },
            ArpProbe { sender_ip: own, target: Ipv4Address::new(10, 0, 0, 5) },
            ArpProbe { sender_ip: own, target: Ipv4Address::new(10, 0, 0, 6) },
            ArpProbe { sender_ip: own, target: Ipv4Address::new(10, 0, 0, 7) },
        ]
    );
    let single = Ipv4Address::new(192, 168, 1, 1);
    assert_eq!(
        scan_network(&interface(vec![IpNetwork::V4 { address: single, prefix: 32 }])),
        vec![ArpProbe { sender_ip: single, target: single }]
    );
}

#[test]
fn sweep_leaves_large_and_ipv6_networks_out() {
    let plan = scan_network(&interface(vec![
        IpNetwork::V4 { address: Ipv4Address::new(10, 1, 2, 3), prefix: 15 },
        IpNetwork::V6 { prefix: 64 },
        IpNetwork::V4 { address: Ipv4Address::new(10, 1, 2, 3), prefix: 33 },
    ]));
    assert!(plan.is_empty());
    let plan = scan_network(&interface(vec![
        IpNetwork::V4 { address: Ipv4Address::new(172, 16, 9, 9), prefix: 16 },
        IpNetwork::V4 { address: Ipv4Address::new(10, 0, 0, 1), prefix: 31 },
    ]));
    assert_eq!(plan.len(), 65536 + 2);
    assert_eq!(plan[0].target, Ipv4Address::new(172, 16, 0, 0));
    assert_eq!(plan[65535].target, Ipv4Address::new(172, 16, 255, 255));
    assert_eq!(plan[65536].sender_ip, Ipv4Address::new(10, 0, 0, 1));
    assert_eq!(plan[65537].target, Ipv4Address::new(10, 0, 0, 1));
}

#[test]
fn point_to_point_and_loopback_interfaces_are_not_eligible() {
    let v4 = vec![IpNetwork::V4 { address: Ipv4Address::new(10, 0, 0, 1), prefix: 24 }];
    assert!(interface(v4.clone()).is_eligible());
    assert!(!Interface { mac: mac(1), ips: v4.clone(), loopback: false, flags: 0x10 }.is_eligible());
    assert!(!Interface { mac: mac(1), ips: v4.clone(), loopback: true, flags: 0 }.is_eligible());
    assert!(Interface { mac: mac(1), ips: v4, loopback: false, flags: 0xffef }.is_eligible());
    assert!(!interface(vec![IpNetwork::V6 { prefix: 64 }]).is_eligible());
}

#[test]
fn receiver_goes_on_after_a_timeout_and_stops_on_an_error() {
    let mut result = SweepResult::new();
    assert_eq!(result.on_receive(&ReceiveEvent::TimedOut), Ok(()));
    assert_eq!(result.on_receive(&ReceiveEvent::Frame(vec![1, 2, 3])), Ok(()));
    assert_eq!(result.len(), 0);
    assert_eq!(result.on_receive(&ReceiveEvent::Failed), Err(SweepError::ReceiveFailed));
    result.record(&reply_from(&mac(1), &Ipv4Address::new(10, 0, 0, 1)));
    result.record(&reply_from(&mac(1), &Ipv4Address::new(10, 0, 0, 2)));
    assert_eq!(result.len(), 1);
    assert_eq!(result.get(&mac(1)), Some(Ipv4Address::new(10, 0, 0, 2)));
    assert_eq!(result.get(&mac(2)), None);
}

#[test]
fn results_of_interfaces_are_merged_and_failures_tolerated() {
    let first = seen(&[(mac(1), Ipv4Address::new(10, 0, 0, 1)), (mac(2), Ipv4Address::new(10, 0, 0, 2))]);
    let second = seen(&[(mac(2), Ipv4Address::new(10, 9, 9, 2)), (mac(3), Ipv4Address::new(10, 9, 9, 3))]);
    let all = merge_results(&vec![
        Ok(first),
        Err(SweepError::ChannelFailed),
        Ok(second),
        Err(SweepError::UnknownChannelType),
    ]);
    assert_eq!(all.len(), 3);
    assert_eq!(all.get(&mac(1)), Some(Ipv4Address::new(10, 0, 0, 1)));
    assert_eq!(all.get(&mac(2)), Some(Ipv4Address::new(10, 9, 9, 2)));
    assert_eq!(all.get(&mac(3)), Some(Ipv4Address::new(10, 9, 9, 3)));
    let mut entries = all.entries();
    entries.sort();
    assert_eq!(entries.len(), 3);
    assert_eq!(entries[0], (mac(1).to_u64(), 0x0a00_0001));
}

#[test]
fn device_times_out_75_seconds_after_it_was_last_seen() {
    let mut scanner = NetworkScanner::new();
    let device = MacAddress::new(0xAA, 0xBB, 0xCC, 0xDD, 0xEE, 0x01);
    let first = scanner.scan(1_000_000, &seen(&[(device, Ipv4Address::new(10, 0, 0, 1))]));
    assert_eq!(
        first.state.devices,
        vec![NetworkDevice {
            ip_address: "10.0.0.1".to_string(),
            mac_address: "aa:bb:cc:dd:ee:01".to_string(),
            details: None,
        }]
    );
    let second = scanner.scan(1_030_000, &SweepResult::new());
    assert_eq!(second.state.devices.len(), 1);
    assert!(scanner.contains(&device));
    let third = scanner.scan(1_075_000, &SweepResult::new());
    assert!(third.state.devices.is_empty());
    assert!(!scanner.contains(&device));
    assert_eq!(scanner.len(), 0);
}

#[test]
fn device_leaves_exactly_at_the_timeout() {
    let mut scanner = NetworkScanner::new();
    scanner.scan(0, &seen(&[(mac(1), Ipv4Address::new(10, 0, 0, 1))]));
    scanner.scan(59_999, &SweepResult::new());
    assert!(scanner.contains(&mac(1)));
    scanner.scan(60_000, &SweepResult::new());
    assert!(!scanner.contains(&mac(1)));
}

#[test]
fn device_missed_by_three_sweeps_stays() {
    let mut scanner = NetworkScanner::new();
    let details = NetworkDeviceDetails::HyperDeckDetails(HyperDeckDetails {
        model_name: "HyperDeck Studio".to_string(),
        protocol_version: "1.11".to_string(),
        unique_id: "ABC".to_string(),
    });
    scanner.scan(0, &seen(&[(mac(1), Ipv4Address::new(10, 0, 0, 1))]));
    scanner.probe_succeeded(&mac(1), details.clone());
    for now in [15_000, 30_000, 45_000] {
        let round = scanner.scan(now, &seen(&[(mac(2), Ipv4Address::new(10, 0, 0, 2))]));
        assert_eq!(round.state.devices.len(), 2);
        let kept = round.state.devices.iter().find(|d| d.mac_address == "aa:bb:cc:dd:ee:01").unwrap();
        assert_eq!(kept.ip_address, "10.0.0.1");
        assert_eq!(kept.details, Some(details.clone()));
    }
    scanner.scan(59_000, &seen(&[(mac(1), Ipv4Address::new(10, 0, 0, 9))]));
    let round = scanner.scan(118_000, &SweepResult::new());
    assert_eq!(round.state.devices.len(), 1);
    assert_eq!(round.state.devices[0].ip_address, "10.0.0.9");
    assert_eq!(round.state.devices[0].details, Some(details));
}

#[test]
fn probes_are_launched_at_once_and_then_every_minute() {
    let mut scanner = NetworkScanner::new();
    let host = seen(&[(mac(1), Ipv4Address::new(10, 0, 0, 1))]);
    let target = ProbeTarget { mac: mac(1), ip: Ipv4Address::new(10, 0, 0, 1) };
    assert_eq!(scanner.scan(5, &host).probes, vec![target]);
    assert_eq!(scanner.scan(15_005, &host).probes, vec![]);
    assert_eq!(scanner.scan(60_004, &host).probes, vec![]);
    assert_eq!(scanner.scan(60_005, &host).probes, vec![target]);
    assert_eq!(scanner.scan(75_005, &host).probes, vec![]);
    let moved = seen(&[(mac(1), Ipv4Address::new(10, 0, 0, 77))]);
    assert_eq!(
        scanner.scan(120_005, &moved).probes,
        vec![ProbeTarget { mac: mac(1), ip: Ipv4Address::new(10, 0, 0, 77) }]
    );
    assert_eq!(scanner.scan(1, &host).probes, vec![]);
}

#[test]
fn table_keeps_the_times_of_sight_and_probe() {
    let mut scanner = NetworkScanner::new();
    assert_eq!(scanner.get(&mac(1)), None);
    scanner.scan(7, &seen(&[(mac(1), Ipv4Address::new(10, 0, 0, 1))]));
    scanner.scan(30_000, &seen(&[(mac(1), Ipv4Address::new(10, 0, 0, 2))]));
    let device = scanner.get(&mac(1)).unwrap();
    assert_eq!(device.ip_address, Ipv4Address::new(10, 0, 0, 2));
    assert_eq!(device.last_seen_time, 30_000);
    assert_eq!(device.last_probe_time, Some(7));
    assert_eq!(device.details, None);
    scanner.scan(60_007, &seen(&[(mac(1), Ipv4Address::new(10, 0, 0, 2))]));
    assert_eq!(scanner.get(&mac(1)).unwrap().last_probe_time, Some(60_007));
}

#[test]
fn failed_probe_keeps_earlier_details() {
    let mut scanner = NetworkScanner::new();
    let details = NetworkDeviceDetails::HyperDeckDetails(HyperDeckDetails {
        model_name: "m".to_string(),
        protocol_version: "1".to_string(),
        unique_id: "u".to_string(),
    });
    scanner.scan(0, &seen(&[(mac(1), Ipv4Address::new(10, 0, 0, 1))]));
    scanner.probe_finished(&mac(1), Ok(details.clone()));
    scanner.probe_finished(&mac(1), Err(ProbeError::ExchangeFailed));
    scanner.probe_finished(&mac(1), Err(ProbeError::UnexpectedResponseCode(500)));
    scanner.probe_finished(&mac(9), Ok(details.clone()));
    let state = scanner.snapshot();
    assert_eq!(state.devices.len(), 1);
    assert_eq!(state.devices[0].details, Some(details));
    assert!(!scanner.contains(&mac(9)));
}

#[test]
fn vendor_is_told_by_the_first_three_octets() {
    assert_eq!(probe_device(&MacAddress::new(0x7c, 0x2e, 0x0d, 1, 2, 3)), Ok(Vendor::HyperDeck));
    assert_eq!(
        probe_device(&MacAddress::new(0x7c, 0x2e, 0x0e, 1, 2, 3)),
        Err(ProbeError::UnrecognizedVendor)
    );
    assert_eq!(probe_device(&mac(1)), Err(ProbeError::UnrecognizedVendor));
}

#[test]
fn probe_reads_the_details_from_the_parameters() {
    let response = HyperDeckResponse {
        code: 200,
        text: "device info".to_string(),
        payload: Some("model: HyperDeck Studio\nprotocol version: 1.11\nunique id: ABC\n".to_string()),
    };
    assert_eq!(
        probe_response(&response),
        Ok(NetworkDeviceDetails::HyperDeckDetails(HyperDeckDetails {
            model_name: "HyperDeck Studio".to_string(),
            protocol_version: "1.11".to_string(),
            unique_id: "ABC".to_string(),
        }))
    );
    let bare = HyperDeckResponse { code: 299, text: "device info".to_string(), payload: None };
    assert_eq!(
        probe_response(&bare),
        Ok(NetworkDeviceDetails::HyperDeckDetails(HyperDeckDetails {
            model_name: String::new(),
            protocol_version: String::new(),
            unique_id: String::new(),
        }))
    );
}

#[test]
fn probe_fails_on_other_codes_and_on_malformed_parameters() {
    for code in [199, 300, 500, -1] {
        let response = HyperDeckResponse { code, text: "x".to_string(), payload: None };
        assert_eq!(probe_response(&response), Err(ProbeError::UnexpectedResponseCode(code)));
    }
    let response = HyperDeckResponse {
        code: 200,
        text: "device info".to_string(),
        payload: Some("model\n".to_string()),
    };
    assert_eq!(probe_response(&response), Err(ProbeError::MalformedParameters));
}

#[test]
fn time_since_never_runs_backwards() {
    assert_eq!(time_since(10, 4), 6);
    assert_eq!(time_since(4, 10), 0);
    assert_eq!(time_since(u64::MAX, 0), u64::MAX);
}
