use mesh_jawn::bot::commands::help::help_command;
use mesh_jawn::bot::commands::info::{
    info_command, info_response, local_time_and_date, lookup_wmo_code, weather_report, WeatherError,
    WeatherReport, LAST_SHOWN_SECS,
};
use mesh_jawn::bot::commands::ping::ping_command;
use mesh_jawn::bot::commands::welcome::{welcome_command, WELCOME_TEXT};
use mesh_jawn::bot::commands::whoami::whoami_command;
use mesh_jawn::bot::commands::{all_commands, execute_command, get_command, Command, CommandOutcome};
use mesh_jawn::bot::node_tracker::{NodeRecord, NodeTracker};
use mesh_jawn::bot::replies::ReplyDestination;
use mesh_jawn::radio::packet_metadata::PacketMetadata;

fn coords(from_id: u32, hops: u32) -> PacketMetadata {
    PacketMetadata {
        from_id,
        to_id: 7,
        message_id: Some(1),
        channel_index: 0,
        is_dm: true,
        hops_traveled: hops,
    }
}

#[test]
fn lookup_by_name_and_alias() {
    assert_eq!(get_command("help").unwrap().command, Command::Help);
    assert_eq!(get_command("?").unwrap().command, Command::Help);
    assert_eq!(get_command("ping").unwrap().command, Command::Ping);
    assert_eq!(get_command("welcome").unwrap().command, Command::Welcome);
    assert_eq!(get_command("hello").unwrap().command, Command::Welcome);
    assert_eq!(get_command("login").unwrap().command, Command::Welcome);
    assert_eq!(get_command("whoami").unwrap().command, Command::Whoami);
    assert_eq!(get_command("info").unwrap().command, Command::Info);
    assert_eq!(get_command("status").unwrap().command, Command::Info);
    assert!(get_command("weather").is_none());
    assert!(get_command("").is_none());
    assert!(get_command("HELP").is_none());
}

#[test]
fn metadata_of_a_command() {
    let m = get_command("hello").unwrap();
    assert_eq!(m.name, "welcome");
    assert_eq!(m.aliases, vec!["hello", "login"]);
    assert_eq!(m.description, "Welcome message");
}

#[test]
fn all_commands_sorted_by_name() {
    let names: Vec<&str> = all_commands().iter().map(|c| c.name).collect();
    assert_eq!(names, vec!["help", "info", "ping", "welcome", "whoami"]);
}

#[test]
fn help_lists_every_command() {
    let r = help_command();
    assert_eq!(r.destination, ReplyDestination::Sender);
    assert_eq!(
        r.messages,
        vec![
            "Available commands:\n\
             .help (?) - Show available commands\n\
             .ping - Test connectivity\n\
             .whoami - Show your node info\n\
             .welcome (hello, login) - Welcome message\n\
             .info (status) - Network status"
        ]
    );
}

#[test]
fn ping_answers_pong() {
    assert_eq!(ping_command().messages, vec!["pong"]);
}

#[test]
fn welcome_banner() {
    let r = welcome_command();
    assert_eq!(r.messages, vec![WELCOME_TEXT]);
    assert!(WELCOME_TEXT.starts_with("WELCOME TO MESH JAWN v0.0.1\n\n"));
    assert!(WELCOME_TEXT.ends_with("Send .help for a list of commands!"));
}

#[test]
fn whoami_reports_name_signal_hops() {
    let mut tracker = NodeTracker::new();
    tracker.update_node(NodeRecord { num: 0x12345678, last_heard: 1, long_name: "MyNodeName".to_string() });
    let r = whoami_command(&coords(0x12345678, 2), "9.5", &tracker);
    assert_eq!(r.messages, vec!["You are: MyNodeName (!12345678)\nSignal: 9.5 dB SNR\nHops: 2"]);
}

#[test]
fn whoami_without_a_known_name_shows_the_id() {
    let mut tracker = NodeTracker::new();
    tracker.update_node(NodeRecord { num: 5, last_heard: 1, long_name: String::new() });
    let r = whoami_command(&coords(5, 0), "-1", &tracker);
    assert_eq!(r.messages, vec!["You are: !00000005\nSignal: -1 dB SNR\nHops: 0"]);
    let r = whoami_command(&coords(6, 1), "0", &tracker);
    assert_eq!(r.messages, vec!["You are: !00000006\nSignal: 0 dB SNR\nHops: 1"]);
}

#[test]
fn execute_dispatches() {
    let tracker = NodeTracker::new();
    match execute_command(Command::Ping, &coords(1, 0), "0", &tracker) {
        CommandOutcome::Reply(r) => assert_eq!(r.messages, vec!["pong"]),
        CommandOutcome::NeedsWeather => panic!("ping needs no weather"),
    }
    match execute_command(Command::Whoami, &coords(42, 13), "-3.25", &tracker) {
        CommandOutcome::Reply(r) => assert_eq!(r.messages, vec!["You are: !0000002a\nSignal: -3.25 dB SNR\nHops: 13"]),
        CommandOutcome::NeedsWeather => panic!("whoami needs no weather"),
    }
    assert!(matches!(execute_command(Command::Info, &coords(1, 0), "0", &tracker), CommandOutcome::NeedsWeather));
}

#[test]
fn wmo_codes() {
    assert_eq!(lookup_wmo_code(0), "Clear sky");
    assert_eq!(lookup_wmo_code(2), "Partly cloudy");
    assert_eq!(lookup_wmo_code(48), "Depositing rime fog");
    assert_eq!(lookup_wmo_code(99), "Thunderstorm with heavy hail");
    assert_eq!(lookup_wmo_code(4), "Unknown conditions");
    assert_eq!(lookup_wmo_code(-1), "Unknown conditions");
}

#[test]
fn weather_report_names_conditions() {
    let r = weather_report(61, "41.2°F".to_string());
    assert_eq!(r.conditions, "Slight rain");
    assert_eq!(r.temp, "41.2°F");
}

#[test]
fn info_text_with_weather() {
    let weather: Result<WeatherReport, WeatherError> = Ok(WeatherReport {
        temp: "72.0°F".to_string(),
        conditions: "Partly cloudy".to_string(),
    });
    let r = info_response("14:32:15", "Wed Jan 15 2025", 12, 45, &weather);
    assert_eq!(
        r.messages,
        vec![
            "🕰️ It's currently 14:32:15 on Wed Jan 15 2025\n📟 I see 12 nodes online (45 total)\n🌤️ Current conditions: Partly cloudy, 72.0°F (.weather for forecast)"
        ]
    );
}

#[test]
fn info_text_without_weather() {
    let weather: Result<WeatherReport, WeatherError> = Err(WeatherError::Status(503));
    let r = info_response("01:02:03", "Thu Jan  1 1970", 0, 3, &weather);
    assert_eq!(
        r.messages,
        vec![
            "🕰️ It's currently 01:02:03 on Thu Jan  1 1970\n📟 I see 0 nodes online (3 total)\n🌤️ Current conditions: unavailable, unavailable (.weather for forecast)"
        ]
    );
}

#[test]
fn info_now_counts_known_nodes() {
    let mut tracker = NodeTracker::new();
    tracker.update_node(NodeRecord { num: 1, last_heard: 0, long_name: String::new() });
    tracker.update_node(NodeRecord { num: 2, last_heard: 5, long_name: "two".to_string() });
    let weather: Result<WeatherReport, WeatherError> = Err(WeatherError::Request("offline".to_string()));
    let r = info_command(&tracker, &weather);
    assert_eq!(r.messages.len(), 1);
    let text = &r.messages[0];
    assert!(text.starts_with("🕰️ It's currently "));
    assert!(!text.starts_with("🕰️ It's currently unavailable"));
    assert!(text.contains("\n📟 I see 0 nodes online (2 total)\n"));
    assert!(text.ends_with("Current conditions: unavailable, unavailable (.weather for forecast)"));
}

#[test]
fn local_time_shows_its_zone() {
    let (t, d) = local_time_and_date(None);
    assert_eq!((t.as_str(), d.as_str()), ("unavailable", "unavailable"));
    let (t, d) = local_time_and_date(Some(LAST_SHOWN_SECS + 1));
    assert_eq!((t.as_str(), d.as_str()), ("unavailable", "unavailable"));
    let (t, d) = local_time_and_date(Some(365 * 86_400));
    assert_eq!(t.len(), "00:00:00 +00:00".len());
    assert!(t.as_bytes()[9] == b'+' || t.as_bytes()[9] == b'-');
    assert!(d.ends_with("1971") || d.ends_with("1970"));
}
