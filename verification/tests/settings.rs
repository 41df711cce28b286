use nordvpn_viking::net::{IpAddr, Ipv4Addr, Ipv6Addr};
use nordvpn_viking::nordvpn::settings;
use nordvpn_viking::nordvpn::settings::set_from_reply;
use nordvpn_viking::nordvpn::{
    CliError, Command, NordVPN, Output, Protocol, Reply, Setting, Settings, Technology,
};

fn ran(success: bool, stdout: &str) -> Result<Output, String> {
    Ok(Output { success, stdout: stdout.as_bytes().to_vec() })
}

fn line(args: &[&str]) -> Command {
    Command { program: "nordvpn".to_owned(), args: args.iter().map(|arg| arg.to_string()).collect() }
}

fn words(items: &[&str]) -> Vec<String> {
    items.iter().map(|item| item.to_string()).collect()
}

fn sample() -> Settings {
    Settings {
        technology: Technology::OpenVpn,
        protocol: Protocol::Udp,
        firewall: true,
        killswitch: false,
        cybersec: false,
        obfuscate: None,
        notify: true,
        autoconnect: false,
        ipv6: false,
        dns: None,
    }
}

#[test]
fn set_refused_value_names_setting_and_values() {
    assert_eq!(
        settings::set("firewall", &words(&["maybe"]), ran(true, "The command you entered is not valid.\n")),
        Err(CliError::InvalidSettingValue("firewall".to_owned(), words(&["maybe"])))
    );
    assert_eq!(
        settings::set("firewall", &words(&["maybe"]), ran(false, "The command you entered is not valid.\n")),
        Err(CliError::InvalidSettingValue("firewall".to_owned(), words(&["maybe"])))
    );
}

#[test]
fn set_unknown_setting_names_the_setting() {
    assert_eq!(
        settings::set("firewal", &words(&["on"]), ran(false, "Command 'firewal' doesn't exist.\n")),
        Err(CliError::InvalidSettingName("firewal".to_owned()))
    );
}

#[test]
fn set_refused_value_counts_before_unknown_setting() {
    let text = "Command 'x' doesn't exist.\nThe command you entered is not valid.\n";
    assert_eq!(
        settings::set("x", &words(&["1", "2"]), ran(true, text)),
        Err(CliError::InvalidSettingValue("x".to_owned(), words(&["1", "2"])))
    );
}

#[test]
fn set_after_failure_is_bad_output() {
    assert_eq!(
        settings::set("firewall", &words(&["true"]), ran(false, "Whoops!\n")),
        Err(CliError::BadOutput(line(&["set", "firewall", "true"])))
    );
}

#[test]
fn set_succeeds_in_silence() {
    assert_eq!(settings::set("firewall", &words(&["true"]), ran(true, "")), Ok(()));
    assert_eq!(
        settings::set("firewall", &words(&["true"]), ran(true, "Firewall is set to 'enabled' successfully.\n")),
        Ok(())
    );
}

#[test]
fn set_without_a_process_is_an_io_error() {
    assert_eq!(
        settings::set("firewall", &words(&["true"]), Err("gone".to_owned())),
        Err(CliError::IoError(line(&["set", "firewall", "true"]), "gone".to_owned()))
    );
}

#[test]
fn set_from_reply_goes_by_what_it_is_told() {
    let reply = Reply { command: line(&["set", "a", "b"]), success: true, stdout: String::new() };
    assert_eq!(set_from_reply("a", &words(&["b"]), reply.clone(), false), Ok(()));
    assert_eq!(
        set_from_reply("a", &words(&["b"]), reply, true),
        Err(CliError::InvalidSettingName("a".to_owned()))
    );
}

#[test]
fn set_command_line_holds_name_and_values() {
    assert_eq!(NordVPN::set("dns", &words(&["1.1.1.1", "1.0.0.1"])), line(&["set", "dns", "1.1.1.1", "1.0.0.1"]));
    assert_eq!(NordVPN::set("firewall", &words(&[])), line(&["set", "firewall"]));
}

#[test]
fn setting_command_lines() {
    assert_eq!(
        Setting::Technology(Technology::NordLynx).command(),
        line(&["set", "technology", "NORDLYNX"])
    );
    assert_eq!(
        Setting::Technology(Technology::OpenVpn).command(),
        line(&["set", "technology", "OPENVPN"])
    );
    assert_eq!(Setting::Protocol(Protocol::Tcp).command(), line(&["set", "protocol", "TCP"]));
    assert_eq!(Setting::Protocol(Protocol::Udp).command(), line(&["set", "protocol", "UDP"]));
    assert_eq!(Setting::Firewall(true).command(), line(&["set", "firewall", "true"]));
    assert_eq!(Setting::Killswitch(false).command(), line(&["set", "killswitch", "false"]));
    assert_eq!(Setting::Cybersec(true).command(), line(&["set", "cybersec", "true"]));
    assert_eq!(Setting::Obfuscate(Some(true)).command(), line(&["set", "obfuscate", "true"]));
    assert_eq!(Setting::Obfuscate(None).command(), line(&["set", "obfuscate", "false"]));
    assert_eq!(Setting::Notify(false).command(), line(&["set", "notify", "false"]));
    assert_eq!(Setting::Autoconnect(true).command(), line(&["set", "autoconnect", "true"]));
    assert_eq!(Setting::Ipv6(true).command(), line(&["set", "ipv6", "true"]));
    assert_eq!(Setting::Dns(None).command(), line(&["set", "dns", "false"]));
    let addresses = vec![
        IpAddr::V4(Ipv4Addr::new(1, 1, 1, 1)),
        IpAddr::V6(Ipv6Addr { a: 0x2606, b: 0x4700, c: 0x4700, d: 0, e: 0, f: 0, g: 0, h: 0x1111 }),
    ];
    assert_eq!(
        Setting::Dns(Some(addresses)).command(),
        line(&["set", "dns", "1.1.1.1", "2606:4700:4700::1111"])
    );
}

#[test]
fn setters_take_the_value_over_on_success() {
    let mut s = sample();
    assert_eq!(s.set_technology(Technology::NordLynx, ran(true, "")), Ok(()));
    assert_eq!(s.technology, Technology::NordLynx);
    assert_eq!(s.set_protocol(Protocol::Tcp, ran(true, "")), Ok(()));
    assert_eq!(s.protocol, Protocol::Tcp);
    assert_eq!(s.set_firewall(false, ran(true, "")), Ok(()));
    assert!(!s.firewall);
    assert_eq!(s.set_killswitch(true, ran(true, "")), Ok(()));
    assert!(s.killswitch);
    assert_eq!(s.set_cybersec(true, ran(true, "")), Ok(()));
    assert!(s.cybersec);
    assert_eq!(s.set_obfuscate(Some(true), ran(true, "")), Ok(()));
    assert_eq!(s.obfuscate, Some(true));
    assert_eq!(s.set_notify(false, ran(true, "")), Ok(()));
    assert!(!s.notify);
    assert_eq!(s.set_autoconnect(true, ran(true, "")), Ok(()));
    assert!(s.autoconnect);
    assert_eq!(s.set_ipv6(true, ran(true, "")), Ok(()));
    assert!(s.ipv6);
    let addresses = vec![IpAddr::V4(Ipv4Addr::new(9, 9, 9, 9))];
    assert_eq!(s.set_dns(Some(addresses.clone()), ran(true, "")), Ok(()));
    assert_eq!(s.dns, Some(addresses));
    assert_eq!(
        s,
        Settings {
            technology: Technology::NordLynx,
            protocol: Protocol::Tcp,
            firewall: false,
            killswitch: true,
            cybersec: true,
            obfuscate: Some(true),
            notify: false,
            autoconnect: true,
            ipv6: true,
            dns: Some(vec![IpAddr::V4(Ipv4Addr::new(9, 9, 9, 9))]),
        }
    );
}

#[test]
fn setters_keep_the_value_on_failure() {
    let mut s = sample();
    assert_eq!(
        s.set_firewall(false, ran(true, "The command you entered is not valid.\n")),
        Err(CliError::InvalidSettingValue("firewall".to_owned(), words(&["false"])))
    );
    assert_eq!(s, sample());
    assert_eq!(
        s.set_technology(Technology::NordLynx, ran(false, "")),
        Err(CliError::BadOutput(line(&["set", "technology", "NORDLYNX"])))
    );
    assert_eq!(s, sample());
    assert_eq!(
        s.set_dns(Some(vec![]), Err("gone".to_owned())),
        Err(CliError::IoError(line(&["set", "dns"]), "gone".to_owned()))
    );
    assert_eq!(s, sample());
}

#[test]
fn apply_is_what_the_setters_do() {
    let mut s = sample();
    assert_eq!(s.apply(Setting::Ipv6(true), ran(true, "")), Ok(()));
    assert!(s.ipv6);
    assert_eq!(
        s.apply(Setting::Ipv6(false), ran(false, "Command 'ipv6' doesn't exist.\n")),
        Err(CliError::InvalidSettingName("ipv6".to_owned()))
    );
    assert!(s.ipv6);
}

#[test]
fn update_walks_the_fields_in_order() {
    let mut s = sample();
    let expected = [
        line(&["set", "technology", "OPENVPN"]),
        line(&["set", "protocol", "UDP"]),
        line(&["set", "firewall", "true"]),
        line(&["set", "killswitch", "false"]),
        line(&["set", "cybersec", "false"]),
        line(&["set", "obfuscate", "false"]),
        line(&["set", "notify", "true"]),
        line(&["set", "autoconnect", "false"]),
        line(&["set", "ipv6", "false"]),
        line(&["set", "dns", "false"]),
    ];
    let mut next = s.step(0);
    let mut index = 0;
    while let Some(run) = next {
        assert_eq!(run, expected[index]);
        next = s.update(index, ran(true, "")).unwrap();
        index += 1;
    }
    assert_eq!(index, 10);
    assert_eq!(s, sample());
    assert_eq!(s.step(10), None);
    assert_eq!(s.update(10, ran(false, "ignored")), Ok(None));
}

#[test]
fn update_stops_at_the_first_failure() {
    let mut s = sample();
    assert_eq!(s.update(0, ran(true, "")), Ok(Some(line(&["set", "protocol", "UDP"]))));
    assert_eq!(
        s.update(1, ran(true, "The command you entered is not valid.\n")),
        Err(CliError::InvalidSettingValue("protocol".to_owned(), words(&["UDP"])))
    );
    assert_eq!(s, sample());
}

#[test]
fn fields_come_in_the_order_of_the_settings() {
    let s = sample();
    assert_eq!(s.field(0), Some(Setting::Technology(Technology::OpenVpn)));
    assert_eq!(s.field(5), Some(Setting::Obfuscate(None)));
    assert_eq!(s.field(9), Some(Setting::Dns(None)));
    assert_eq!(s.field(10), None);
    assert_eq!(Setting::Killswitch(true).name(), "killswitch");
    assert_eq!(Setting::Dns(Some(vec![])).values(), Vec::<String>::new());
}
