//! Tests for the toolbar-control builders, the declaration sentences and
//! the argument dispatch.

use r_extcap::config::{
    BooleanConfig, ConfigOptionValue, ConfigTrait, FileSelectConfig, IntegerConfig, LongConfig,
    MultiCheckConfig, MultiCheckValue, PasswordConfig, RadioConfig, Reload, SelectorConfig,
    StringConfig, TimestampConfig, UnsignedConfig,
};
use r_extcap::controls::{
    BooleanControl, ButtonControl, ControlCommand, ControlWithLabel, EnableableControl,
    LoggerControl, SelectorControl, SelectorControlOption, StringControl,
};
use r_extcap::interface::{Dlt, Interface, Metadata};
use r_extcap::{
    CaptureError, ConfigEntry, ExtcapArgs, ExtcapError, ExtcapStep, PrintDltError, PrintSentence,
    ReloadConfigError, ToolbarControlEntry,
};

fn sentence<T: PrintSentence>(item: &T) -> String {
    String::from_utf8(item.format_sentence()).unwrap()
}

fn boolean_control() -> BooleanControl {
    BooleanControl {
        control_number: 2,
        display: String::from("Verify"),
        tooltip: Some(String::from("Verify package control")),
        default_value: false,
    }
}

fn selector_control() -> SelectorControl {
    SelectorControl {
        control_number: 1,
        display: String::from("Time delay"),
        tooltip: Some(String::from("Time delay between packets")),
        options: vec![
            SelectorControlOption {
                value: String::from("1"),
                display: String::from("1s"),
                default: false,
            },
            SelectorControlOption {
                value: String::from("5"),
                display: String::from("5s"),
                default: true,
            },
        ],
    }
}

#[test]
fn boolean_control_set_checked_payloads() {
    // set-checked(true) must produce a Set packet with the single payload
    // byte 1; set-checked(false) one with the byte 0.
    let control = boolean_control();
    let checked = control.set_checked(true);
    assert_eq!(checked.command, ControlCommand::SetValue);
    assert_eq!(checked.control_number, 2);
    assert_eq!(checked.payload, vec![1]);
    let unchecked = control.set_checked(false);
    assert_eq!(unchecked.command, ControlCommand::SetValue);
    assert_eq!(unchecked.payload, vec![0]);
}

#[test]
fn enable_and_disable_packets() {
    let control = boolean_control();
    let enabled = control.set_enabled(true);
    assert_eq!(enabled.command, ControlCommand::Enable);
    assert!(enabled.payload.is_empty());
    let disabled = control.set_enabled(false);
    assert_eq!(disabled.command, ControlCommand::Disable);
    assert!(disabled.payload.is_empty());
}

#[test]
fn set_label_packet() {
    let control = ButtonControl {
        control_number: 3,
        display: String::from("Turn on"),
        tooltip: None,
    };
    let packet = control.set_label("Turn off");
    assert_eq!(packet.control_number, 3);
    assert_eq!(packet.command, ControlCommand::SetValue);
    assert_eq!(packet.payload, b"Turn off".to_vec());
}

#[test]
fn logger_packets_append_a_newline() {
    let logger = LoggerControl {
        control_number: 6,
        display: String::from("Log"),
        tooltip: None,
    };
    let cleared = logger.clear_and_add_log("Log started");
    assert_eq!(cleared.command, ControlCommand::SetValue);
    assert_eq!(cleared.payload, b"Log started\n".to_vec());
    let appended = logger.add_log("Received packet #1");
    assert_eq!(appended.command, ControlCommand::Add);
    assert_eq!(appended.payload, b"Received packet #1\n".to_vec());
}

#[test]
fn selector_value_packets() {
    let selector = selector_control();
    let set = selector.set_value("3");
    assert_eq!(set.command, ControlCommand::SetValue);
    assert_eq!(set.payload, b"3".to_vec());

    let plain = selector.add_value("7", None);
    assert_eq!(plain.command, ControlCommand::Add);
    assert_eq!(plain.payload, b"7".to_vec());

    let labelled = selector.add_value("7", Some("7 sec"));
    assert_eq!(labelled.payload, b"7\x007 sec".to_vec());

    let cleared = selector.clear();
    assert_eq!(cleared.command, ControlCommand::Remove);
    assert!(cleared.payload.is_empty());
}

#[test]
fn remove_value_rejects_the_empty_string() {
    // An empty value is reserved to mean "remove all options", so the
    // builder must fail before producing a packet.
    let selector = selector_control();
    assert!(selector.remove_value("").is_err());
    let removed = selector.remove_value("60").unwrap();
    assert_eq!(removed.command, ControlCommand::Remove);
    assert_eq!(removed.payload, b"60".to_vec());
}

#[test]
fn string_control_set_value_packet() {
    let control = StringControl {
        control_number: 0,
        display: String::from("Message"),
        tooltip: None,
        placeholder: None,
        validation: None,
        default_value: None,
    };
    let packet = control.set_value("Extcap Test");
    assert_eq!(packet.command, ControlCommand::SetValue);
    assert_eq!(packet.payload, b"Extcap Test".to_vec());
}

#[test]
fn control_sentences() {
    assert_eq!(
        sentence(&boolean_control()),
        "control {number=2}{type=boolean}{display=Verify}{default=false}\
         {tooltip=Verify package control}\n"
    );
    assert_eq!(
        sentence(&selector_control()),
        "control {number=1}{type=selector}{display=Time delay}\
         {tooltip=Time delay between packets}\n\
         value {control=1}{value=1}{display=1s}\n\
         value {control=1}{value=5}{display=5s}{default=true}\n"
    );
    let logger = LoggerControl {
        control_number: 6,
        display: String::from("Log"),
        tooltip: Some(String::from("Show capture log")),
    };
    assert_eq!(
        sentence(&logger),
        "control {number=6}{type=button}{role=logger}{display=Log}{tooltip=Show capture log}\n"
    );
}

#[test]
fn selector_option_sentence_names_its_control() {
    let selector = selector_control();
    let rendered = selector.options[1].format_sentence(&selector);
    assert_eq!(
        String::from_utf8(rendered).unwrap(),
        "value {control=1}{value=5}{display=5s}{default=true}\n"
    );
}

#[test]
fn metadata_interface_and_dlt_sentences() {
    let metadata = Metadata {
        version: String::from("3.2.1-test"),
        help_url: String::from("http://www.wireshark.org"),
        display_description: String::from("Just for testing"),
    };
    assert_eq!(
        sentence(&metadata),
        "extcap {version=3.2.1-test}{help=http://www.wireshark.org}{display=Just for testing}\n"
    );

    let dlt = Dlt {
        data_link_type: 1,
        name: String::from("ETHERNET"),
        display: String::from("IEEE 802.3 Ethernet"),
    };
    assert_eq!(sentence(&dlt), "dlt {number=1}{name=ETHERNET}{display=IEEE 802.3 Ethernet}\n");

    let interface = Interface {
        value: String::from("MyInterface"),
        display: String::from("My interface"),
        dlt,
    };
    assert_eq!(
        sentence(&interface),
        "interface {value=MyInterface}{display=My interface}\n"
    );
}

fn remote_options() -> Vec<ConfigOptionValue> {
    vec![
        ConfigOptionValue {
            value: String::from("if1"),
            display: String::from("Remote1"),
            default: true,
        },
        ConfigOptionValue {
            value: String::from("if2"),
            display: String::from("Remote2"),
            default: false,
        },
    ]
}

fn remote_selector() -> SelectorConfig {
    SelectorConfig {
        config_number: 3,
        call: String::from("remote"),
        display: String::from("Remote Channel"),
        tooltip: Some(String::from("Remote Channel Selector")),
        reload: None,
        group: None,
        default_options: remote_options(),
    }
}

#[test]
fn selector_config_sentence() {
    assert_eq!(
        sentence(&remote_selector()),
        "arg {number=3}{call=--remote}{display=Remote Channel}\
         {tooltip=Remote Channel Selector}{type=selector}\n\
         value {arg=3}{value=if1}{display=Remote1}{default=true}\n\
         value {arg=3}{value=if2}{display=Remote2}{default=false}\n"
    );
}

#[test]
fn radio_config_sentence() {
    let radio = RadioConfig {
        config_number: 3,
        call: String::from("remote"),
        display: String::from("Remote Channel"),
        tooltip: Some(String::from("Remote Channel Selector")),
        group: None,
        options: remote_options(),
    };
    assert_eq!(
        sentence(&radio),
        "arg {number=3}{call=--remote}{display=Remote Channel}\
         {tooltip=Remote Channel Selector}{type=radio}\n\
         value {arg=3}{value=if1}{display=Remote1}{default=true}\n\
         value {arg=3}{value=if2}{display=Remote2}{default=false}\n"
    );
}

#[test]
fn multicheck_config_sentence() {
    let config = MultiCheckConfig {
        config_number: 3,
        call: String::from("multi"),
        display: String::from("Remote Channel"),
        tooltip: Some(String::from("Remote Channel Selector")),
        group: None,
        options: vec![
            MultiCheckValue {
                value: String::from("if1"),
                display: String::from("Remote1"),
                default_value: true,
                enabled: true,
                children: Vec::new(),
            },
            MultiCheckValue {
                value: String::from("if2"),
                display: String::from("Remote2"),
                default_value: false,
                enabled: true,
                children: vec![
                    MultiCheckValue {
                        value: String::from("if2a"),
                        display: String::from("Remote2A"),
                        default_value: true,
                        enabled: true,
                        children: Vec::new(),
                    },
                    MultiCheckValue {
                        value: String::from("if2b"),
                        display: String::from("Remote2B"),
                        default_value: true,
                        enabled: true,
                        children: Vec::new(),
                    },
                ],
            },
        ],
    };
    assert_eq!(
        sentence(&config),
        "arg {number=3}{call=--multi}{display=Remote Channel}\
         {tooltip=Remote Channel Selector}{type=multicheck}\n\
         value {arg=3}{value=if1}{display=Remote1}{default=true}{enabled=true}\n\
         value {arg=3}{value=if2}{display=Remote2}{default=false}{enabled=true}\n\
         value {arg=3}{value=if2a}{display=Remote2A}{default=true}{enabled=true}{parent=if2}\n\
         value {arg=3}{value=if2b}{display=Remote2B}{default=true}{enabled=true}{parent=if2}\n"
    );
}

#[test]
fn numeric_config_sentences() {
    let long = LongConfig {
        config_number: 0,
        call: String::from("delay"),
        display: String::from("Time delay"),
        tooltip: Some(String::from("Time delay between packages")),
        range: Some(-2i64..=15i64),
        default_value: 0,
        group: None,
    };
    assert_eq!(
        sentence(&long),
        "arg {number=0}{call=--delay}{display=Time delay}\
         {tooltip=Time delay between packages}{range=-2,15}{default=0}{type=long}\n"
    );

    let integer = IntegerConfig {
        config_number: 0,
        call: String::from("delay"),
        display: String::from("Time delay"),
        tooltip: Some(String::from("Time delay between packages")),
        range: Some(-10i32..=15i32),
        default_value: 0,
        group: None,
    };
    assert_eq!(
        sentence(&integer),
        "arg {number=0}{call=--delay}{display=Time delay}\
         {tooltip=Time delay between packages}{range=-10,15}{default=0}{type=integer}\n"
    );

    let unsigned = UnsignedConfig {
        config_number: 0,
        call: String::from("delay"),
        display: String::from("Time delay"),
        tooltip: Some(String::from("Time delay between packages")),
        range: Some(1u32..=15u32),
        default_value: 0,
        group: None,
    };
    assert_eq!(
        sentence(&unsigned),
        "arg {number=0}{call=--delay}{display=Time delay}\
         {tooltip=Time delay between packages}{range=1,15}{default=0}{type=unsigned}\n"
    );
}

#[test]
fn text_config_sentences() {
    let string = StringConfig {
        config_number: 1,
        call: String::from("server"),
        display: String::from("IP Address"),
        tooltip: Some(String::from("IP Address for log server")),
        placeholder: None,
        required: false,
        group: None,
        validation: Some(String::from(r"\d\d\d\d")),
        save: true,
    };
    assert_eq!(
        sentence(&string),
        "arg {number=1}{call=--server}{display=IP Address}\
         {tooltip=IP Address for log server}{validation=\\d\\d\\d\\d}{save=true}{type=string}\n"
    );

    let password = PasswordConfig {
        config_number: 0,
        call: String::from("password"),
        display: String::from("The user password"),
        tooltip: Some(String::from("The password for the connection")),
        placeholder: None,
        required: false,
        validation: None,
        group: None,
    };
    assert_eq!(
        sentence(&password),
        "arg {number=0}{call=--password}{display=The user password}\
         {tooltip=The password for the connection}{type=password}\n"
    );
}

#[test]
fn remaining_config_sentences() {
    let timestamp = TimestampConfig {
        config_number: 9,
        call: String::from("ts"),
        display: String::from("Start Time"),
        tooltip: Some(String::from("Capture start time")),
        group: Some(String::from("Time / Log")),
    };
    assert_eq!(
        sentence(&timestamp),
        "arg {number=9}{call=--ts}{display=Start Time}{tooltip=Capture start time}\
         {group=Time / Log}{type=timestamp}\n"
    );

    let fileselect = FileSelectConfig {
        config_number: 3,
        call: String::from("logfile"),
        display: String::from("Logfile"),
        tooltip: Some(String::from("A file for log messages")),
        group: None,
        must_exist: false,
        file_extension_filter: None,
    };
    assert_eq!(
        sentence(&fileselect),
        "arg {number=3}{call=--logfile}{display=Logfile}{tooltip=A file for log messages}\
         {type=fileselect}{mustexist=false}\n"
    );

    let boolean = BooleanConfig {
        config_number: 2,
        call: String::from("verify"),
        display: String::from("Verify"),
        tooltip: Some(String::from("Verify package content")),
        default_value: false,
        group: None,
        always_include_option: false,
    };
    assert_eq!(
        sentence(&boolean),
        "arg {number=2}{call=--verify}{display=Verify}{tooltip=Verify package content}\
         {type=boolflag}\n"
    );
}

fn args(capture: bool) -> ExtcapArgs {
    ExtcapArgs {
        extcap_interfaces: false,
        extcap_version: None,
        extcap_config: false,
        extcap_dlts: false,
        capture,
        extcap_interface: None,
        fifo: None,
        extcap_capture_filter: None,
        extcap_control_in: None,
        extcap_control_out: None,
        extcap_reload_option: None,
    }
}

#[test]
fn run_selects_the_requested_phase() {
    let mut listing = args(false);
    listing.extcap_interfaces = true;
    assert!(matches!(listing.run(), Ok(ExtcapStep::Interfaces(_))));

    let mut dlts = args(false);
    dlts.extcap_interface = Some(String::from("ex1"));
    dlts.extcap_dlts = true;
    match dlts.run() {
        Ok(ExtcapStep::Dlts(step)) => assert_eq!(step.interface, "ex1"),
        other => panic!("expected the DLT step, got {:?}", other),
    }

    let mut config = args(false);
    config.extcap_interface = Some(String::from("ex1"));
    config.extcap_config = true;
    match config.run() {
        Ok(ExtcapStep::Config(step)) => assert_eq!(step.interface, "ex1"),
        other => panic!("expected the config step, got {:?}", other),
    }

    let mut reload = args(false);
    reload.extcap_interface = Some(String::from("ex1"));
    reload.extcap_config = true;
    reload.extcap_reload_option = Some(String::from("remote"));
    match reload.run() {
        Ok(ExtcapStep::ReloadConfig(step)) => {
            assert_eq!(step.interface, "ex1");
            assert_eq!(step.config, "remote");
        }
        other => panic!("expected the reload step, got {:?}", other),
    }

    let mut capture = args(true);
    capture.extcap_interface = Some(String::from("ex1"));
    capture.fifo = Some(String::from("/tmp/fifo"));
    capture.extcap_control_in = Some(String::from("/tmp/in"));
    match capture.run() {
        Ok(ExtcapStep::Capture(step)) => {
            assert_eq!(step.interface, "ex1");
            assert_eq!(step.fifo, "/tmp/fifo");
            assert_eq!(step.extcap_control_in.as_deref(), Some("/tmp/in"));
            assert_eq!(step.extcap_control_out, None);
        }
        other => panic!("expected the capture step, got {:?}", other),
    }
}

#[test]
fn run_rejects_incomplete_requests() {
    assert_eq!(args(false).run().unwrap_err(), ExtcapError::NotExtcapInput);

    let mut bare_interface = args(false);
    bare_interface.extcap_interface = Some(String::from("ex1"));
    assert_eq!(bare_interface.run().unwrap_err(), ExtcapError::NotExtcapInput);

    let mut no_fifo = args(true);
    no_fifo.extcap_interface = Some(String::from("ex1"));
    assert_eq!(
        no_fifo.run().unwrap_err(),
        ExtcapError::CaptureError(CaptureError::MissingFifo)
    );
}

#[test]
fn interface_listing_concatenates_every_sentence() {
    let step = match {
        let mut listing = args(false);
        listing.extcap_interfaces = true;
        listing.run()
    } {
        Ok(ExtcapStep::Interfaces(step)) => step,
        other => panic!("expected the interface step, got {:?}", other),
    };
    let metadata = Metadata {
        version: String::from("0.1.0"),
        help_url: String::from("http://example.com"),
        display_description: String::from("Example extcap"),
    };
    let interfaces = vec![Interface {
        value: String::from("ex1"),
        display: String::from("Example interface"),
        dlt: Dlt {
            data_link_type: 147,
            name: String::from("USER0"),
            display: String::from("Demo"),
        },
    }];
    let controls = vec![
        ToolbarControlEntry::Boolean(boolean_control()),
        ToolbarControlEntry::Selector(selector_control()),
    ];
    let listing = String::from_utf8(step.list_interfaces(&metadata, &interfaces, &controls))
        .unwrap();
    let expected = [
        sentence(&metadata),
        sentence(&interfaces[0]),
        sentence(&controls[0]),
        sentence(&controls[1]),
    ]
    .concat();
    assert_eq!(listing, expected);
}

#[test]
fn dlt_step_finds_the_interface() {
    let step = r_extcap::DltsStep { interface: String::from("ex2") };
    let interfaces = vec![
        Interface {
            value: String::from("ex1"),
            display: String::from("One"),
            dlt: Dlt {
                data_link_type: 147,
                name: String::from("USER0"),
                display: String::from("Demo"),
            },
        },
        Interface {
            value: String::from("ex2"),
            display: String::from("Two"),
            dlt: Dlt {
                data_link_type: 148,
                name: String::from("USER1"),
                display: String::from("Demo"),
            },
        },
    ];
    let rendered = String::from_utf8(step.print_from_interfaces(&interfaces).unwrap()).unwrap();
    assert_eq!(rendered, "dlt {number=148}{name=USER1}{display=Demo}\n");

    let missing = r_extcap::DltsStep { interface: String::from("ex9") };
    assert_eq!(
        missing.print_from_interfaces(&interfaces).unwrap_err(),
        PrintDltError::UnknownInterface(String::from("ex9"))
    );
}

#[test]
fn config_listing_concatenates_every_sentence() {
    let step = r_extcap::ConfigStep { interface: String::from("ex1") };
    let configs = vec![
        ConfigEntry::Selector(remote_selector()),
        ConfigEntry::Boolean(BooleanConfig {
            config_number: 2,
            call: String::from("verify"),
            display: String::from("Verify"),
            tooltip: None,
            default_value: false,
            group: None,
            always_include_option: false,
        }),
    ];
    let listing = String::from_utf8(step.list_configs(&configs)).unwrap();
    assert_eq!(listing, [sentence(&configs[0]), sentence(&configs[1])].concat());
    assert_eq!(configs[0].call().as_str(), "remote");
}

#[test]
fn reload_options_renders_the_reload_list() {
    let step = r_extcap::ReloadConfigStep {
        interface: String::from("ex1"),
        config: String::from("remote"),
    };
    let mut selector = remote_selector();
    selector.reload = Some(Reload {
        label: String::from("Load interfaces..."),
        options: vec![ConfigOptionValue {
            value: String::from("if3"),
            display: String::from("Remote Interface 3"),
            default: true,
        }],
    });
    let rendered = String::from_utf8(step.reload_options(&selector).unwrap()).unwrap();
    assert_eq!(
        rendered,
        "value {arg=3}{value=if3}{display=Remote Interface 3}{default=true}\n"
    );

    let without_reload = remote_selector();
    assert_eq!(
        step.reload_options(&without_reload).unwrap_err(),
        ReloadConfigError::UnsupportedConfig(String::from("remote"))
    );

    let configs = vec![ConfigEntry::Selector(selector)];
    let from_list = String::from_utf8(step.reload_from_configs(&configs).unwrap()).unwrap();
    assert_eq!(from_list, rendered);

    let unknown = r_extcap::ReloadConfigStep {
        interface: String::from("ex1"),
        config: String::from("nothere"),
    };
    assert_eq!(
        unknown.reload_from_configs(&configs).unwrap_err(),
        ReloadConfigError::UnknownConfig(String::from("nothere"))
    );
}

#[test]
fn selector_reload_sentence_announces_the_button() {
    let mut selector = remote_selector();
    selector.reload = Some(Reload {
        label: String::from("Load interfaces..."),
        options: Vec::new(),
    });
    assert_eq!(
        sentence(&selector),
        "arg {number=3}{call=--remote}{display=Remote Channel}\
         {tooltip=Remote Channel Selector}{type=selector}\
         {reload=true}{placeholder=Load interfaces...}\n\
         value {arg=3}{value=if1}{display=Remote1}{default=true}\n\
         value {arg=3}{value=if2}{display=Remote2}{default=false}\n"
    );
}
