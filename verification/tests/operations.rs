use nordvpn_viking::net::{IpAddr, Ipv4Addr, Ipv6Addr};
use nordvpn_viking::nordvpn::{
    account, cities, connect, countries, disconnect, groups, login, logout, status, version,
    Account, Byte, CliError, Command, ConnectOption, Connected, Date, Duration, NordVPN, Output,
    Protocol, RegexError, Technology, Transfer, Version,
};

fn ran(success: bool, stdout: &str) -> Result<Output, String> {
    Ok(Output { success, stdout: stdout.as_bytes().to_vec() })
}

fn line(args: &[&str]) -> Command {
    Command { program: "nordvpn".to_owned(), args: args.iter().map(|arg| arg.to_string()).collect() }
}

const ACCOUNT: &str = "Account Information:\nEmail Address: user@example.com\nVPN Service: Active (Expires on Jan 5th, 2024)\n";

const STATUS: &str = "Status: Connected\nCurrent server: us1234.nordvpn.com\nCountry: United States\nCity: New York\nServer IP: 192.0.2.17\nCurrent technology: NordLynx\nCurrent protocol: UDP\nTransfer: 2.00 MiB received, 500.00 KiB sent\nUptime: 2 years 3 months 1 day 4 hours 5 minutes 6 seconds\n";

#[test]
fn nordvpn_test_nordvpn() {
    let version = version(ran(true, "NordVPN Version 3.12.2\n")).unwrap();
    println!("Version: {:?}", version);
    assert!(version >= Version::new(3, 12, 0));

    let account = account(ran(true, ACCOUNT)).unwrap();
    println!("Account: {:#?}", account);

    let countries = countries(ran(true, "Albania, Germany, United_States\n")).unwrap();
    println!("Countries: {:?}", countries);

    for country in countries {
        let cities = cities(&country, ran(true, "Berlin, Frankfurt\n")).unwrap();
        println!("Cities in {}: {:?}", country, cities);
    }

    let status = status(ran(true, STATUS));
    match status {
        Ok(status) => println!("{:#?}", status.unwrap()),
        Err(error) => match error {
            CliError::BadOutput(command) => {
                println!("{:?}", command);
            }
            _ => panic!(),
        },
    }
}

#[test]
fn mod_test_nordvpn() {
    let version = version(ran(true, "NordVPN Version 3.12.2\n")).unwrap();
    println!("Version: {:?}", version);
    assert!(version >= Version::new(3, 12, 0));

    let account = account(ran(true, ACCOUNT)).unwrap();
    println!("Account: {:#?}", account);

    let countries = countries(ran(true, "Albania, Germany, United_States\n")).unwrap();
    println!("Countries: {:?}", countries);

    for country in countries {
        let cities = cities(&country, ran(true, "Berlin, Frankfurt\n")).unwrap();
        println!("Cities in {}: {:?}", country, cities);
    }

    let groups = groups(ran(true, "Double_VPN, P2P\n")).unwrap();
    println!("Groups: {:?}", groups);

    let before = status(ran(true, "Status: Disconnected\n")).unwrap();
    println!("Status: {:#?}", before);

    let connect = connect(
        None,
        ran(true, "Connecting to United States #1234 (us1234.nordvpn.com)\nYou are connected to United States #1234 (us1234.nordvpn.com)!\n"),
    )
    .unwrap();
    println!("Connect response: {:#?}", connect);

    let during = status(ran(true, STATUS)).unwrap();
    println!("Status: {:#?}", during);

    let disconnect = disconnect(ran(true, "You are disconnected from NordVPN.\n")).unwrap();
    println!("Disconnected: {}", disconnect);

    let after = status(ran(true, "Status: Disconnected\n")).unwrap();
    println!("Status: {:#?}", after);
}

#[test]
fn version_is_read_from_the_reply() {
    assert_eq!(version(ran(true, "NordVPN Version 3.12.2\n")), Ok(Version::new(3, 12, 2)));
    assert_eq!(version(ran(true, "3.16.9")), Ok(Version { major: 3, minor: 16, patch: 9 }));
}

#[test]
fn version_that_is_none_is_a_version_error() {
    assert_eq!(
        version(ran(true, "no version here\n")),
        Err(CliError::RegexError(RegexError::Version, line(&["version"])))
    );
    assert_eq!(
        version(ran(true, "1.2x3\n")),
        Err(CliError::RegexError(RegexError::Version, line(&["version"])))
    );
    assert_eq!(
        version(ran(true, "1.02.3\n")),
        Err(CliError::RegexError(RegexError::Version, line(&["version"])))
    );
}

#[test]
fn version_after_failure_is_failed_command() {
    assert_eq!(
        version(ran(false, "NordVPN Version 3.12.2\n")),
        Err(CliError::FailedCommand(line(&["version"])))
    );
}

#[test]
fn account_is_read_from_the_reply() {
    assert_eq!(
        account(ran(true, ACCOUNT)),
        Ok(Some(Account {
            email: "user@example.com".to_owned(),
            active: true,
            expires: Date { year: 2024, month: 1, day: 5 },
        }))
    );
}

#[test]
fn account_with_a_day_of_two_digits() {
    let text = "Email Address: a@b.c\nVPN Service: INACTIVE (Expires on Dec 31st, 2025)\n";
    assert_eq!(
        account(ran(true, text)),
        Ok(Some(Account {
            email: "a@b.c".to_owned(),
            active: false,
            expires: Date { year: 2025, month: 12, day: 31 },
        }))
    );
}

#[test]
fn account_not_logged_in_counts_before_the_exit_code() {
    assert_eq!(account(ran(false, "You are not logged in.\n")), Ok(None));
    assert_eq!(account(ran(true, "You are not logged in.\n")), Ok(None));
}

#[test]
fn account_after_failure_is_failed_command() {
    assert_eq!(account(ran(false, ACCOUNT)), Err(CliError::FailedCommand(line(&["account"]))));
}

#[test]
fn account_without_a_match_is_an_account_error() {
    assert_eq!(
        account(ran(true, "nothing of use\n")),
        Err(CliError::RegexError(RegexError::Account, line(&["account"])))
    );
}

#[test]
fn account_blames_the_part_that_is_missing() {
    let no_email = "VPN Service: Active (Expires on Jan 5th, 2024)\n";
    assert_eq!(
        account(ran(true, no_email)),
        Err(CliError::RegexError(RegexError::AccountEmail, line(&["account"])))
    );
    let no_active = "Email Address: user@example.com\n(Expires on Jan 5th, 2024)\n";
    assert_eq!(
        account(ran(true, no_active)),
        Err(CliError::RegexError(RegexError::AccountActive, line(&["account"])))
    );
    let no_expires = "Email Address: user@example.com\nVPN Service: Active\n";
    assert_eq!(
        account(ran(true, no_expires)),
        Err(CliError::RegexError(RegexError::AccountExpires, line(&["account"])))
    );
}

#[test]
fn account_with_a_day_that_is_none_blames_the_day() {
    let text = "Email Address: user@example.com\nVPN Service: Active (Expires on Feb 30th, 2024)\n";
    assert_eq!(
        account(ran(true, text)),
        Err(CliError::RegexError(RegexError::AccountExpires, line(&["account"])))
    );
}

#[test]
fn no_process_is_an_io_error() {
    assert_eq!(
        account(Err("No such file or directory".to_owned())),
        Err(CliError::IoError(line(&["account"]), "No such file or directory".to_owned()))
    );
    assert_eq!(
        status(Err("denied".to_owned())),
        Err(CliError::IoError(line(&["status"]), "denied".to_owned()))
    );
}

#[test]
fn bytes_that_are_no_text_are_bad_encoding() {
    let bytes = vec![b'D', 0xff, 0xfe];
    assert_eq!(
        status(Ok(Output { success: true, stdout: bytes.clone() })),
        Err(CliError::BadEncoding(line(&["status"]), bytes))
    );
}

#[test]
fn lists_are_read_word_by_word() {
    assert_eq!(
        countries(ran(true, "Albania, Germany, United_States\n")),
        Ok(vec!["Albania".to_owned(), "Germany".to_owned(), "United_States".to_owned()])
    );
    assert_eq!(
        cities("Germany", ran(true, "Berlin, Frankfurt")),
        Ok(vec!["Berlin".to_owned(), "Frankfurt".to_owned()])
    );
    assert_eq!(groups(ran(true, "P2P\n")), Ok(vec!["P2P".to_owned()]));
}

#[test]
fn lists_are_read_where_blanks_or_lines_part_the_words() {
    assert_eq!(
        countries(ran(true, "Albania Germany United_States\n")),
        Ok(vec!["Albania".to_owned(), "Germany".to_owned(), "United_States".to_owned()])
    );
    assert_eq!(
        countries(ran(true, "Albania, Germany\nJapan, United_States\n")),
        Ok(vec![
            "Albania".to_owned(),
            "Germany".to_owned(),
            "Japan".to_owned(),
            "United_States".to_owned()
        ])
    );
    assert_eq!(
        cities("Germany", ran(true, "Berlin\t\tFrankfurt\nHamburg\n")),
        Ok(vec!["Berlin".to_owned(), "Frankfurt".to_owned(), "Hamburg".to_owned()])
    );
    assert_eq!(
        groups(ran(true, "Double_VPN\nP2P\n")),
        Ok(vec!["Double_VPN".to_owned(), "P2P".to_owned()])
    );
}

#[test]
fn lists_without_a_word_blame_their_own_operation() {
    assert_eq!(
        countries(ran(true, "")),
        Err(CliError::RegexError(RegexError::Countries, line(&["countries"])))
    );
    assert_eq!(
        cities("Germany", ran(true, " \n")),
        Err(CliError::RegexError(RegexError::Cities, line(&["cities", "Germany"])))
    );
    assert_eq!(
        groups(ran(true, "")),
        Err(CliError::RegexError(RegexError::Groups, line(&["groups"])))
    );
}

#[test]
fn lists_after_failure_are_failed_command() {
    assert_eq!(
        cities("Atlantis", ran(false, "Berlin, Frankfurt")),
        Err(CliError::FailedCommand(line(&["cities", "Atlantis"])))
    );
}

#[test]
fn connect_is_read_from_the_reply() {
    let text = "You are connected to United States #1234 (us1234.nordvpn.com)!\n";
    assert_eq!(
        connect(None, ran(true, text)),
        Ok(Connected {
            country: "United States".to_owned(),
            server: 1234,
            hostname: "us1234.nordvpn.com".to_owned(),
        })
    );
}

#[test]
fn connect_with_a_number_too_large_is_a_connect_error() {
    let text = "You are connected to Germany #4294967296 (de1.nordvpn.com)!\n";
    let option = ConnectOption::Country("Germany".to_owned());
    assert_eq!(
        connect(Some(&option), ran(true, text)),
        Err(CliError::RegexError(RegexError::Connect, line(&["connect", "Germany"])))
    );
    let most = "You are connected to Germany #4294967295 (de1.nordvpn.com)!\n";
    assert_eq!(connect(Some(&option), ran(true, most)).unwrap().server, 4294967295);
    let none = "You are connected to Germany #0 (de0.nordvpn.com)!\n";
    assert_eq!(
        connect(Some(&option), ran(true, none)),
        Err(CliError::RegexError(RegexError::Connect, line(&["connect", "Germany"])))
    );
    let first = "You are connected to Germany #001 (de1.nordvpn.com)!\n";
    assert_eq!(connect(Some(&option), ran(true, first)).unwrap().server, 1);
}

#[test]
fn connect_without_its_sentence_is_a_connect_error() {
    let option = ConnectOption::CountryCity("Germany".to_owned(), "Berlin".to_owned());
    assert_eq!(
        connect(Some(&option), ran(true, "Connecting...\n")),
        Err(CliError::RegexError(RegexError::Connect, line(&["connect", "Germany", "Berlin"])))
    );
    assert_eq!(
        connect(Some(&option), ran(false, "Connecting...\n")),
        Err(CliError::FailedCommand(line(&["connect", "Germany", "Berlin"])))
    );
}

#[test]
fn command_lines_name_the_operation() {
    assert_eq!(NordVPN::account(), line(&["account"]));
    assert_eq!(NordVPN::cities("France"), line(&["cities", "France"]));
    assert_eq!(NordVPN::countries(), line(&["countries"]));
    assert_eq!(NordVPN::disconnect(), line(&["disconnect"]));
    assert_eq!(NordVPN::groups(), line(&["groups"]));
    assert_eq!(NordVPN::login(), line(&["login"]));
    assert_eq!(NordVPN::logout(), line(&["logout"]));
    assert_eq!(NordVPN::status(), line(&["status"]));
    assert_eq!(NordVPN::version(), line(&["version"]));
    assert_eq!(NordVPN::command(vec!["rate".to_owned(), "5".to_owned()]), line(&["rate", "5"]));
}

#[test]
fn connect_command_lines_carry_the_option() {
    assert_eq!(NordVPN::connect(None), line(&["connect"]));
    let one = |option: ConnectOption| NordVPN::connect(Some(&option));
    assert_eq!(one(ConnectOption::Country("France".to_owned())), line(&["connect", "France"]));
    assert_eq!(one(ConnectOption::Server("fr123".to_owned())), line(&["connect", "fr123"]));
    assert_eq!(one(ConnectOption::CountryCode("fr".to_owned())), line(&["connect", "fr"]));
    assert_eq!(one(ConnectOption::City("Paris".to_owned())), line(&["connect", "Paris"]));
    assert_eq!(one(ConnectOption::Group("P2P".to_owned())), line(&["connect", "P2P"]));
    assert_eq!(
        one(ConnectOption::CountryCity("France".to_owned(), "Paris".to_owned())),
        line(&["connect", "France", "Paris"])
    );
}

#[test]
fn disconnect_knows_two_sentences() {
    assert_eq!(disconnect(ran(true, "You are not connected to NordVPN.\n")), Ok(false));
    assert_eq!(disconnect(ran(true, "You are disconnected from NordVPN.\n")), Ok(true));
    assert_eq!(disconnect(ran(false, "You are not connected to NordVPN.\n")), Ok(false));
    assert_eq!(
        disconnect(ran(true, "something else\n")),
        Err(CliError::BadOutput(line(&["disconnect"])))
    );
    assert_eq!(
        disconnect(ran(false, "something else\n")),
        Err(CliError::FailedCommand(line(&["disconnect"])))
    );
}

#[test]
fn logout_knows_two_sentences() {
    assert_eq!(logout(ran(true, "You are not logged in.\n")), Ok(false));
    assert_eq!(logout(ran(false, "You are not logged in.\n")), Ok(false));
    assert_eq!(logout(ran(true, "You are logged out.\n")), Ok(true));
    assert_eq!(logout(ran(true, "what?\n")), Err(CliError::BadOutput(line(&["logout"]))));
    assert_eq!(logout(ran(false, "what?\n")), Err(CliError::FailedCommand(line(&["logout"]))));
}

#[test]
fn login_gives_the_address_or_nothing() {
    assert_eq!(login(ran(true, "You are already logged in.\n")), Ok(None));
    assert_eq!(login(ran(false, "You are already logged in.\n")), Ok(None));
    assert_eq!(
        login(ran(true, "Continue in the browser: https://example.com/login?token=abc\n")),
        Ok(Some("https://example.com/login?token=abc".to_owned()))
    );
    assert_eq!(
        login(ran(true, "nothing\n")),
        Err(CliError::RegexError(RegexError::Login, line(&["login"])))
    );
    assert_eq!(login(ran(false, "nothing\n")), Err(CliError::FailedCommand(line(&["login"]))));
}

#[test]
fn status_reads_every_field() {
    assert_eq!(
        status(ran(true, STATUS)),
        Ok(Some(nordvpn_viking::nordvpn::Status {
            hostname: "us1234.nordvpn.com".to_owned(),
            country: "United States".to_owned(),
            city: "New York".to_owned(),
            ip: IpAddr::V4(Ipv4Addr { a: 192, b: 0, c: 2, d: 17 }),
            technology: Technology::NordLynx,
            protocol: Protocol::Udp,
            transfer: Transfer {
                received: Byte { bytes: 2_097_152 },
                sent: Byte { bytes: 512_000 },
            },
            uptime: Duration { milliseconds: 71_065_106_000 },
        }))
    );
}

#[test]
fn status_reads_an_address_with_colons() {
    let text = STATUS.replace("192.0.2.17", "2001:db8::8a2e:370:7334");
    let status = status(ran(true, &text)).unwrap().unwrap();
    assert_eq!(
        status.ip,
        IpAddr::V6(Ipv6Addr {
            a: 0x2001,
            b: 0xdb8,
            c: 0,
            d: 0,
            e: 0,
            f: 0x8a2e,
            g: 0x370,
            h: 0x7334
        })
    );
}

#[test]
fn status_reads_names_in_any_case() {
    let text = STATUS.replace("NordLynx", "openvpn").replace("UDP", "tcp");
    let status = status(ran(true, &text)).unwrap().unwrap();
    assert_eq!(status.technology, Technology::OpenVpn);
    assert_eq!(status.protocol, Protocol::Tcp);
}

#[test]
fn status_without_uptime_parts_is_up_for_no_time() {
    let text = STATUS.replace("2 years 3 months 1 day 4 hours 5 minutes 6 seconds", "");
    let status = status(ran(true, &text)).unwrap().unwrap();
    assert_eq!(status.uptime, Duration { milliseconds: 0 });
    assert_eq!(status.uptime.num_milliseconds(), 0);
}

#[test]
fn status_without_an_uptime_line_is_up_for_no_time() {
    let text = STATUS.replace("Uptime: 2 years 3 months 1 day 4 hours 5 minutes 6 seconds\n", "");
    let status = status(ran(true, &text)).unwrap().unwrap();
    assert_eq!(status.uptime, Duration::milliseconds(0));
}

#[test]
fn status_sums_the_parts_of_the_uptime() {
    let text = STATUS.replace("2 years 3 months 1 day 4 hours 5 minutes 6 seconds", "1 hour 1 second");
    assert_eq!(
        status(ran(true, &text)).unwrap().unwrap().uptime,
        Duration { milliseconds: 3_601_000 }
    );
    let text = STATUS.replace("2 years 3 months 1 day 4 hours 5 minutes 6 seconds", "1 month");
    assert_eq!(
        status(ran(true, &text)).unwrap().unwrap().uptime,
        Duration { milliseconds: 2_628_000_000 }
    );
    let text = STATUS.replace("2 years 3 months 1 day 4 hours 5 minutes 6 seconds", "1 year");
    assert_eq!(
        status(ran(true, &text)).unwrap().unwrap().uptime,
        Duration { milliseconds: 31_540_000_000 }
    );
}

#[test]
fn status_holds_an_uptime_beyond_the_bound_at_the_bound() {
    let text = STATUS.replace(
        "2 years 3 months 1 day 4 hours 5 minutes 6 seconds",
        "99999999999999999999999999 years",
    );
    assert_eq!(
        status(ran(true, &text)).unwrap().unwrap().uptime,
        Duration { milliseconds: i64::MAX }
    );
}

#[test]
fn status_disconnected_counts_before_the_exit_code() {
    assert_eq!(status(ran(true, "Status: Disconnected\n")), Ok(None));
    assert_eq!(status(ran(false, "Status: Disconnected\n")), Ok(None));
}

#[test]
fn status_after_failure_is_failed_command() {
    assert_eq!(status(ran(false, STATUS)), Err(CliError::FailedCommand(line(&["status"]))));
}

#[test]
fn status_without_a_match_is_a_status_error() {
    assert_eq!(
        status(ran(true, "Status: Connecting\n")),
        Err(CliError::RegexError(RegexError::Status, line(&["status"])))
    );
}

fn status_error_without(part: &str) -> CliError {
    let text: String =
        STATUS.lines().filter(|line| !line.starts_with(part)).map(|line| format!("{}\n", line)).collect();
    status(ran(true, &text)).unwrap_err()
}

#[test]
fn status_blames_the_one_field_that_is_missing() {
    let blame = |error: RegexError| CliError::RegexError(error, line(&["status"]));
    assert_eq!(status_error_without("Current server:"), blame(RegexError::StatusHostname));
    assert_eq!(status_error_without("Country:"), blame(RegexError::StatusCountry));
    assert_eq!(status_error_without("City:"), blame(RegexError::StatusCity));
    assert_eq!(status_error_without("Server IP:"), blame(RegexError::StatusIp));
    assert_eq!(status_error_without("Current technology:"), blame(RegexError::StatusTechnology));
    assert_eq!(status_error_without("Current protocol:"), blame(RegexError::StatusProtocol));
    assert_eq!(status_error_without("Transfer:"), blame(RegexError::StatusTransfer));
}

#[test]
fn status_blames_an_address_that_is_none() {
    let text = STATUS.replace("192.0.2.17", "192.0.2.256");
    assert_eq!(
        status(ran(true, &text)),
        Err(CliError::RegexError(RegexError::StatusIp, line(&["status"])))
    );
}

#[test]
fn status_blames_a_quantity_that_is_none() {
    let text = STATUS.replace("500.00 KiB", "500.00 furlongs");
    assert_eq!(
        status(ran(true, &text)),
        Err(CliError::RegexError(RegexError::StatusTransfer, line(&["status"])))
    );
}

#[test]
fn errors_say_what_went_wrong() {
    let run = line(&["status"]);
    assert_eq!(
        CliError::IoError(run.clone(), "x".to_owned()).to_string(),
        "unable to create command"
    );
    assert_eq!(
        CliError::FailedCommand(run.clone()).to_string(),
        "command terminated unsuccessfully"
    );
    assert_eq!(
        CliError::BadEncoding(run.clone(), vec![0xff]).to_string(),
        "failed to get command output as UTF-8"
    );
    assert_eq!(
        CliError::BadOutput(run.clone()).to_string(),
        "command output did not match as expected"
    );
    assert_eq!(
        CliError::RegexError(RegexError::Status, run.clone()).to_string(),
        "a regex pattern failed to match"
    );
    assert_eq!(CliError::BadOutput(run.clone()).command(), Some(&run));
    assert_eq!(CliError::IoError(run.clone(), "x".to_owned()).command(), Some(&run));
    assert_eq!(CliError::InvalidSettingName("x".to_owned()).command(), None);
    assert_eq!(CliError::InvalidSettingName("x".to_owned()).to_string(), "setting does not exist");
    assert_eq!(
        CliError::InvalidSettingValue("x".to_owned(), vec![]).to_string(),
        "the provided value for a setting is malformed or invalid"
    );
}

#[test]
fn status_with_an_uptime_in_other_digits_is_a_status_error() {
    let text = STATUS.replace("2 years", "٢ years");
    assert_eq!(
        status(ran(true, &text)),
        Err(CliError::RegexError(RegexError::Status, line(&["status"])))
    );
}
