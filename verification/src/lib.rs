//! Library for writing [extcap](https://www.wireshark.org/docs/man-pages/extcap.html)
//! programs: external binaries that act as capture interfaces for Wireshark.
//!
//! The heart of the library is the control-packet channel: the binary wire
//! format exchanged over the `--extcap-control-in` and `--extcap-control-out`
//! pipes, the reader that reassembles complete frames out of an arbitrarily
//! split byte stream, the writer that serialises frames in order, and the
//! channel-backed wrapper that lets a capture loop poll for control messages
//! without blocking. Around it sit the toolbar-control builders and the
//! line-oriented sentences that declare interfaces, configs and controls on
//! standard output.
//!
//! All I/O stays outside this crate: the functions here turn plain values into
//! packets and sentence bytes, and turn received bytes back into packets, so a
//! thin front end only has to move bytes between pipes and these functions.

pub mod config;
pub mod controls;
pub mod interface;
pub mod sentences;

use vstd::prelude::*;

verus! {

use crate::config::{
    BooleanConfig, ConfigOptionValue, ConfigTrait, FileSelectConfig, IntegerConfig,
    MultiCheckConfig, PasswordConfig, RadioConfig, SelectorConfig, StringConfig, TimestampConfig,
    UnsignedConfig, config_option_sentences,
};
use crate::controls::{
    BooleanControl, ButtonControl, HelpButtonControl, LoggerControl, RestoreButtonControl,
    SelectorControl, StringControl,
};
use crate::interface::{Interface, Metadata};

/// Elements that have a printable extcap sentence: one line of the
/// text protocol that declares interfaces, configs and toolbar controls
/// to the host on standard output.
pub trait PrintSentence {
    /// The sentence as a mathematical byte sequence.
    spec fn spec_sentence(&self) -> Seq<u8>;

    /// Renders the extcap sentence, newline included, as bytes.
    fn format_sentence(&self) -> (r: Vec<u8>)
        ensures
            r@ == self.spec_sentence(),
    ;
}

/// The arguments of the extcap protocol, as plain values. The host calls
/// this program in four phases: the interface listing, the config listing,
/// the DLT listing and the capture itself, each selected by one of the
/// flags here; [`run`][Self::run] decides which phase was requested.
///
/// A command line front end fills this struct from the parsed arguments.
#[derive(Debug)]
pub struct ExtcapArgs {
    /// First phase: this program is queried for its interfaces, metadata
    /// and toolbar controls.
    pub extcap_interfaces: bool,
    /// The version of the host that is calling this program, when the host
    /// passes it during the interface listing.
    pub extcap_version: Option<String>,
    /// Second phase: this program is asked for the configuration options of
    /// one interface.
    pub extcap_config: bool,
    /// Third phase: this program is asked for the DLT of one interface.
    pub extcap_dlts: bool,
    /// Fourth phase: the capture starts. `fifo` must also be given.
    pub capture: bool,
    /// The interface the operation concerns; one of the values declared in
    /// the interface listing.
    pub extcap_interface: Option<String>,
    /// The path of the fifo the captured records must be written to.
    pub fifo: Option<String>,
    /// The capture filter chosen by the user; records not matching it
    /// should not be captured.
    pub extcap_capture_filter: Option<String>,
    /// The path of the pipe control packets arrive on, when the host
    /// supplies one.
    pub extcap_control_in: Option<String>,
    /// The path of the pipe control packets are sent on, when the host
    /// supplies one.
    pub extcap_control_out: Option<String>,
    /// The config whose options should be recomputed, in the reload phase
    /// of a selector config with a reload button.
    pub extcap_reload_option: Option<String>,
}

/// Error during the capture phase.
#[derive(Debug, PartialEq, Eq)]
pub enum CaptureError {
    /// The `--extcap-interface` argument is required during the capture
    /// phase but was not provided.
    MissingInterface,
    /// The `--fifo` argument is required during the capture phase, to name
    /// the pipe the captured records go to, but was not provided.
    MissingFifo,
}

/// Error reported by [`ExtcapArgs::run`].
#[derive(Debug, PartialEq, Eq)]
pub enum ExtcapError {
    /// The arguments are not a request any extcap phase makes: the program
    /// was probably run by hand rather than by the host.
    NotExtcapInput,
    /// The capture phase was requested but its arguments are incomplete.
    CaptureError(CaptureError),
}

/// Error printing the DLT of an interface.
#[derive(Debug, PartialEq, Eq)]
pub enum PrintDltError {
    /// The interface named by the host is not one this program declared.
    /// The interface list should stay consistent between invocations.
    UnknownInterface(String),
}

/// Error reloading the options of a config.
#[derive(Debug, PartialEq, Eq)]
pub enum ReloadConfigError {
    /// The config named by the host is not one this program declared. The
    /// config list should stay consistent between invocations.
    UnknownConfig(String),
    /// The config named by the host is not a selector with a reload button,
    /// so it has no options to reload.
    UnsupportedConfig(String),
}

/// Error listing the configs of an interface.
#[derive(Debug, PartialEq, Eq)]
pub enum ListConfigError {
    /// The interface named by the host is not one this program declared.
    /// The interface list should stay consistent between invocations.
    UnknownInterface(String),
}

/// One toolbar control of any kind, for the heterogeneous control list of
/// the interface listing. The set of control kinds is closed, so the list
/// entry is a sum over them.
#[derive(Debug)]
pub enum ToolbarControlEntry {
    /// A checkbox control.
    Boolean(BooleanControl),
    /// A push button control.
    Button(ButtonControl),
    /// A log window control.
    Logger(LoggerControl),
    /// A help button control.
    HelpButton(HelpButtonControl),
    /// A restore-defaults button control.
    RestoreButton(RestoreButtonControl),
    /// A drop-down selector control.
    Selector(SelectorControl),
    /// A text field control.
    Text(StringControl),
}

impl PrintSentence for ToolbarControlEntry {
    open spec fn spec_sentence(&self) -> Seq<u8> {
        match self {
            ToolbarControlEntry::Boolean(control) => control.spec_sentence(),
            ToolbarControlEntry::Button(control) => control.spec_sentence(),
            ToolbarControlEntry::Logger(control) => control.spec_sentence(),
            ToolbarControlEntry::HelpButton(control) => control.spec_sentence(),
            ToolbarControlEntry::RestoreButton(control) => control.spec_sentence(),
            ToolbarControlEntry::Selector(control) => control.spec_sentence(),
            ToolbarControlEntry::Text(control) => control.spec_sentence(),
        }
    }

    fn format_sentence(&self) -> (r: Vec<u8>) {
        match self {
            ToolbarControlEntry::Boolean(control) => control.format_sentence(),
            ToolbarControlEntry::Button(control) => control.format_sentence(),
            ToolbarControlEntry::Logger(control) => control.format_sentence(),
            ToolbarControlEntry::HelpButton(control) => control.format_sentence(),
            ToolbarControlEntry::RestoreButton(control) => control.format_sentence(),
            ToolbarControlEntry::Selector(control) => control.format_sentence(),
            ToolbarControlEntry::Text(control) => control.format_sentence(),
        }
    }
}

/// One config of any kind, for the heterogeneous config list of the config
/// listing. The set of config kinds is closed, so the list entry is a sum
/// over them.
#[derive(Debug)]
pub enum ConfigEntry {
    /// A drop-down selector config.
    Selector(SelectorConfig),
    /// A radio-buttons config.
    Radio(RadioConfig),
    /// A tree-of-checkboxes config.
    MultiCheck(MultiCheckConfig),
    /// A 64-bit signed numeric config.
    Long(crate::config::LongConfig),
    /// A 32-bit signed numeric config.
    Integer(IntegerConfig),
    /// A 32-bit unsigned numeric config.
    Unsigned(UnsignedConfig),
    /// A text config.
    Text(StringConfig),
    /// A masked text config.
    Password(PasswordConfig),
    /// A date-and-time config.
    Timestamp(TimestampConfig),
    /// A file-path config.
    FileSelect(FileSelectConfig),
    /// A checkbox config.
    Boolean(BooleanConfig),
}

impl ConfigEntry {
    /// The command line option of the config this entry wraps, as a
    /// specification-level value.
    pub open spec fn spec_call(&self) -> Seq<char> {
        match self {
            ConfigEntry::Selector(config) => config.spec_call(),
            ConfigEntry::Radio(config) => config.spec_call(),
            ConfigEntry::MultiCheck(config) => config.spec_call(),
            ConfigEntry::Long(config) => config.spec_call(),
            ConfigEntry::Integer(config) => config.spec_call(),
            ConfigEntry::Unsigned(config) => config.spec_call(),
            ConfigEntry::Text(config) => config.spec_call(),
            ConfigEntry::Password(config) => config.spec_call(),
            ConfigEntry::Timestamp(config) => config.spec_call(),
            ConfigEntry::FileSelect(config) => config.spec_call(),
            ConfigEntry::Boolean(config) => config.spec_call(),
        }
    }

    /// The command line option of the config this entry wraps.
    pub fn call(&self) -> (r: &String)
        ensures
            r@ == self.spec_call(),
    {
        match self {
            ConfigEntry::Selector(config) => config.call(),
            ConfigEntry::Radio(config) => config.call(),
            ConfigEntry::MultiCheck(config) => config.call(),
            ConfigEntry::Long(config) => config.call(),
            ConfigEntry::Integer(config) => config.call(),
            ConfigEntry::Unsigned(config) => config.call(),
            ConfigEntry::Text(config) => config.call(),
            ConfigEntry::Password(config) => config.call(),
            ConfigEntry::Timestamp(config) => config.call(),
            ConfigEntry::FileSelect(config) => config.call(),
            ConfigEntry::Boolean(config) => config.call(),
        }
    }
}

impl PrintSentence for ConfigEntry {
    open spec fn spec_sentence(&self) -> Seq<u8> {
        match self {
            ConfigEntry::Selector(config) => config.spec_sentence(),
            ConfigEntry::Radio(config) => config.spec_sentence(),
            ConfigEntry::MultiCheck(config) => config.spec_sentence(),
            ConfigEntry::Long(config) => config.spec_sentence(),
            ConfigEntry::Integer(config) => config.spec_sentence(),
            ConfigEntry::Unsigned(config) => config.spec_sentence(),
            ConfigEntry::Text(config) => config.spec_sentence(),
            ConfigEntry::Password(config) => config.spec_sentence(),
            ConfigEntry::Timestamp(config) => config.spec_sentence(),
            ConfigEntry::FileSelect(config) => config.spec_sentence(),
            ConfigEntry::Boolean(config) => config.spec_sentence(),
        }
    }

    fn format_sentence(&self) -> (r: Vec<u8>) {
        match self {
            ConfigEntry::Selector(config) => config.format_sentence(),
            ConfigEntry::Radio(config) => config.format_sentence(),
            ConfigEntry::MultiCheck(config) => config.format_sentence(),
            ConfigEntry::Long(config) => config.format_sentence(),
            ConfigEntry::Integer(config) => config.format_sentence(),
            ConfigEntry::Unsigned(config) => config.format_sentence(),
            ConfigEntry::Text(config) => config.format_sentence(),
            ConfigEntry::Password(config) => config.format_sentence(),
            ConfigEntry::Timestamp(config) => config.format_sentence(),
            ConfigEntry::FileSelect(config) => config.format_sentence(),
            ConfigEntry::Boolean(config) => config.format_sentence(),
        }
    }
}

/// The concatenated sentences of a list of configs, in order.
pub open spec fn config_sentences(configs: Seq<ConfigEntry>) -> Seq<u8>
    decreases configs.len(),
{
    if configs.len() == 0 {
        Seq::empty()
    } else {
        config_sentences(configs.drop_last()) + configs.last().spec_sentence()
    }
}

/// The concatenated sentences of a list of interfaces, in order.
pub open spec fn interface_sentences(interfaces: Seq<Interface>) -> Seq<u8>
    decreases interfaces.len(),
{
    if interfaces.len() == 0 {
        Seq::empty()
    } else {
        interface_sentences(interfaces.drop_last()) + interfaces.last().spec_sentence()
    }
}

/// The concatenated sentences of a list of toolbar controls, in order.
pub open spec fn control_sentences(controls: Seq<ToolbarControlEntry>) -> Seq<u8>
    decreases controls.len(),
{
    if controls.len() == 0 {
        Seq::empty()
    } else {
        control_sentences(controls.drop_last()) + controls.last().spec_sentence()
    }
}

/// The phase of the extcap exchange the arguments requested, as returned by
/// [`ExtcapArgs::run`]. Each step carries what that phase needs.
#[derive(Debug)]
pub enum ExtcapStep {
    /// List the interfaces, metadata and toolbar controls on standard
    /// output.
    Interfaces(InterfacesStep),
    /// Print the DLT of one interface on standard output.
    Dlts(DltsStep),
    /// List the configs of one interface on standard output.
    Config(ConfigStep),
    /// Print the reloaded options of one config on standard output.
    ReloadConfig(ReloadConfigStep),
    /// Capture records from the interface and write them to the fifo.
    Capture(CaptureStep),
}

/// The interface-listing step. The host caches what this step prints, so
/// its output should stay consistent between invocations.
#[derive(Debug, PartialEq, Eq, Structural)]
pub struct InterfacesStep;

impl InterfacesStep {
    /// Renders the whole interface listing: the metadata sentence, one
    /// sentence per interface and one per toolbar control, in order.
    pub fn list_interfaces(
        &self,
        metadata: &Metadata,
        interfaces: &Vec<Interface>,
        controls: &Vec<ToolbarControlEntry>,
    ) -> (r: Vec<u8>)
        ensures
            r@ == metadata.spec_sentence() + interface_sentences(interfaces@) + control_sentences(
                controls@,
            ),
    {
        let mut out = metadata.format_sentence();
        let ghost after_metadata = out@;
        let mut i: usize = 0;
        while i < interfaces.len()
            invariant
                i <= interfaces.len(),
                out@ == after_metadata + interface_sentences(interfaces@.take(i as int)),
            decreases interfaces.len() - i,
        {
            let mut line = interfaces[i].format_sentence();
            out.append(&mut line);
            proof {
                assert(interfaces@.take(i + 1int).drop_last() =~= interfaces@.take(i as int));
                assert(interfaces@.take(i + 1int).last() == interfaces@[i as int]);
            }
            i = i + 1;
        }
        proof {
            assert(interfaces@.take(interfaces@.len() as int) =~= interfaces@);
        }
        let ghost after_interfaces = out@;
        let mut j: usize = 0;
        while j < controls.len()
            invariant
                j <= controls.len(),
                out@ == after_interfaces + control_sentences(controls@.take(j as int)),
            decreases controls.len() - j,
        {
            let mut line = controls[j].format_sentence();
            out.append(&mut line);
            proof {
                assert(controls@.take(j + 1int).drop_last() =~= controls@.take(j as int));
                assert(controls@.take(j + 1int).last() == controls@[j as int]);
            }
            j = j + 1;
        }
        proof {
            assert(controls@.take(controls@.len() as int) =~= controls@);
        }
        out
    }
}

/// The DLT-listing step: the host asks for the data link type of one
/// interface, named by the `interface` field.
#[derive(Debug, PartialEq, Eq)]
pub struct DltsStep {
    /// The interface to print the DLT for.
    pub interface: String,
}

impl DltsStep {
    /// Renders the DLT sentence of the given interface.
    pub fn print_dlt(&self, interface: &Interface) -> (r: Vec<u8>)
        ensures
            r@ == interface.dlt.spec_sentence(),
    {
        interface.dlt.format_sentence()
    }

    /// Finds the interface this step names within `interfaces` and renders
    /// its DLT sentence; an interface this program never declared is an
    /// error.
    pub fn print_from_interfaces(&self, interfaces: &Vec<Interface>) -> (r: Result<
        Vec<u8>,
        PrintDltError,
    >)
        ensures
            match r {
                Ok(bytes) => exists|i: int|
                    {
                        &&& 0 <= i < interfaces@.len()
                        &&& (#[trigger] interfaces@[i]).value@ == self.interface@
                        &&& bytes@ == interfaces@[i].dlt.spec_sentence()
                        &&& forall|j: int|
                            0 <= j < i ==> (#[trigger] interfaces@[j]).value@ != self.interface@
                    },
                Err(PrintDltError::UnknownInterface(name)) => {
                    &&& name@ == self.interface@
                    &&& forall|i: int|
                        0 <= i < interfaces@.len() ==> (#[trigger] interfaces@[i]).value@
                            != self.interface@
                },
            },
    {
        let mut i: usize = 0;
        while i < interfaces.len()
            invariant
                i <= interfaces.len(),
                forall|j: int|
                    0 <= j < i ==> (#[trigger] interfaces@[j]).value@ != self.interface@,
            decreases interfaces.len() - i,
        {
            if interfaces[i].value == self.interface {
                return Ok(interfaces[i].dlt.format_sentence());
            }
            i = i + 1;
        }
        Err(PrintDltError::UnknownInterface(self.interface.clone()))
    }
}

/// The config-listing step: the host asks for the configuration options of
/// one interface.
#[derive(Debug, PartialEq, Eq)]
pub struct ConfigStep {
    /// The interface the configurations belong to.
    pub interface: String,
}

impl ConfigStep {
    /// Renders the sentences of the given configs, in order. The list may
    /// vary by interface.
    pub fn list_configs(&self, configs: &Vec<ConfigEntry>) -> (r: Vec<u8>)
        ensures
            r@ == config_sentences(configs@),
    {
        let mut out: Vec<u8> = Vec::new();
        let mut i: usize = 0;
        while i < configs.len()
            invariant
                i <= configs.len(),
                out@ == config_sentences(configs@.take(i as int)),
            decreases configs.len() - i,
        {
            let mut line = configs[i].format_sentence();
            out.append(&mut line);
            proof {
                assert(configs@.take(i + 1int).drop_last() =~= configs@.take(i as int));
                assert(configs@.take(i + 1int).last() == configs@[i as int]);
            }
            i = i + 1;
        }
        proof {
            assert(configs@.take(configs@.len() as int) =~= configs@);
        }
        out
    }
}

/// The reload step of one config: invoked when the user presses the reload
/// button a [`SelectorConfig`] with a [`crate::config::Reload`] declared.
#[derive(Debug, PartialEq, Eq)]
pub struct ReloadConfigStep {
    /// The interface the reloaded config is associated with.
    pub interface: String,
    /// The `call` of the config being reloaded.
    pub config: String,
}

impl ReloadConfigStep {
    /// Renders the reloaded option sentences of the given selector config;
    /// a config without a reload button has nothing to reload, which is an
    /// error.
    pub fn reload_options(&self, config: &SelectorConfig) -> (r: Result<
        Vec<u8>,
        ReloadConfigError,
    >)
        ensures
            match r {
                Ok(bytes) => {
                    &&& config.reload is Some
                    &&& bytes@ == config_option_sentences(
                        config.reload->0.options@,
                        config.config_number,
                    )
                },
                Err(ReloadConfigError::UnsupportedConfig(name)) => {
                    &&& config.reload is None
                    &&& name@ == config.call@
                },
                Err(ReloadConfigError::UnknownConfig(_)) => false,
            },
    {
        match &config.reload {
            Some(reload) => {
                let mut out: Vec<u8> = Vec::new();
                let mut i: usize = 0;
                while i < reload.options.len()
                    invariant
                        i <= reload.options.len(),
                        out@ == config_option_sentences(
                            reload.options@.take(i as int),
                            config.config_number,
                        ),
                    decreases reload.options.len() - i,
                {
                    let mut line = reload.options[i].format_sentence(config.config_number);
                    out.append(&mut line);
                    proof {
                        assert(reload.options@.take(i + 1int).drop_last() =~= reload.options@.take(
                            i as int,
                        ));
                        assert(reload.options@.take(i + 1int).last() == reload.options@[i as int]);
                    }
                    i = i + 1;
                }
                proof {
                    assert(reload.options@.take(reload.options@.len() as int)
                        =~= reload.options@);
                }
                Ok(out)
            },
            None => Err(ReloadConfigError::UnsupportedConfig(config.call.clone())),
        }
    }

    /// Finds the config this step names within `configs` and renders its
    /// reloaded options. A config this program never declared, or one that
    /// is not a selector with a reload button, is an error.
    pub fn reload_from_configs(&self, configs: &Vec<ConfigEntry>) -> (r: Result<
        Vec<u8>,
        ReloadConfigError,
    >)
        ensures
            r is Ok ==> exists|i: int|
                {
                    &&& 0 <= i < configs@.len()
                    &&& (#[trigger] configs@[i]).spec_call() == self.config@
                    &&& configs@[i] matches ConfigEntry::Selector(selector)
                    &&& selector.reload is Some
                    &&& r->Ok_0@ == config_option_sentences(
                        selector.reload->0.options@,
                        selector.config_number,
                    )
                },
            r matches Err(ReloadConfigError::UnknownConfig(name)) ==> {
                &&& name@ == self.config@
                &&& forall|i: int|
                    0 <= i < configs@.len() ==> (#[trigger] configs@[i]).spec_call()
                        != self.config@
            },
            r matches Err(ReloadConfigError::UnsupportedConfig(name)) ==> {
                &&& name@ == self.config@
                &&& exists|i: int|
                    {
                        &&& 0 <= i < configs@.len()
                        &&& (#[trigger] configs@[i]).spec_call() == self.config@
                        &&& !(configs@[i] matches ConfigEntry::Selector(selector)
                            && selector.reload is Some)
                    }
            },
    {
        let mut i: usize = 0;
        while i < configs.len()
            invariant
                i <= configs.len(),
                forall|j: int| 0 <= j < i ==> (#[trigger] configs@[j]).spec_call() != self.config@,
            decreases configs.len() - i,
        {
            if *configs[i].call() == self.config {
                proof {
                    assert(configs@[i as int].spec_call() == self.config@);
                }
                match &configs[i] {
                    ConfigEntry::Selector(selector) => {
                        if selector.reload.is_some() {
                            let rendered = self.reload_options(selector);
                            proof {
                                assert(rendered is Ok);
                            }
                            return rendered;
                        } else {
                            return Err(
                                ReloadConfigError::UnsupportedConfig(self.config.clone()),
                            );
                        }
                    },
                    _ => {
                        return Err(ReloadConfigError::UnsupportedConfig(self.config.clone()));
                    },
                }
            }
            i = i + 1;
        }
        Err(ReloadConfigError::UnknownConfig(self.config.clone()))
    }
}

/// The capture step: the host asked this program to start capturing. The
/// front end opens the named pipes and drives the capture loop with what it
/// finds here.
#[derive(Debug, PartialEq, Eq)]
pub struct CaptureStep {
    /// The interface to capture on, as declared in the interface listing.
    pub interface: String,
    /// The path of the fifo the captured records must be written to, in the
    /// capture file format. The fifo should be opened even by a front end
    /// that writes nothing, or the host waits on it forever.
    pub fifo: String,
    /// The path of the incoming control pipe, when the host supplied one.
    pub extcap_control_in: Option<String>,
    /// The path of the outgoing control pipe, when the host supplied one.
    pub extcap_control_out: Option<String>,
}

impl ExtcapArgs {
    /// Decides which phase of the extcap exchange the arguments request.
    ///
    /// The interface listing wins over everything else; with an interface
    /// given, the config flag selects the config listing (or, with a reload
    /// option, the reload step), then the DLT flag the DLT listing, then
    /// the capture flag the capture step, which also needs the fifo.
    /// Anything else is not input this protocol produces.
    pub fn run(&self) -> (r: Result<ExtcapStep, ExtcapError>)
        ensures
            match r {
                Ok(ExtcapStep::Interfaces(_)) => self.extcap_interfaces,
                Ok(ExtcapStep::ReloadConfig(step)) => {
                    &&& !self.extcap_interfaces
                    &&& self.extcap_interface matches Some(interface)
                    &&& self.extcap_config
                    &&& self.extcap_reload_option matches Some(config)
                    &&& step.interface@ == interface@
                    &&& step.config@ == config@
                },
                Ok(ExtcapStep::Config(step)) => {
                    &&& !self.extcap_interfaces
                    &&& self.extcap_interface matches Some(interface)
                    &&& self.extcap_config
                    &&& self.extcap_reload_option is None
                    &&& step.interface@ == interface@
                },
                Ok(ExtcapStep::Dlts(step)) => {
                    &&& !self.extcap_interfaces
                    &&& self.extcap_interface matches Some(interface)
                    &&& !self.extcap_config
                    &&& self.extcap_dlts
                    &&& step.interface@ == interface@
                },
                Ok(ExtcapStep::Capture(step)) => {
                    &&& !self.extcap_interfaces
                    &&& self.extcap_interface matches Some(interface)
                    &&& !self.extcap_config
                    &&& !self.extcap_dlts
                    &&& self.capture
                    &&& self.fifo matches Some(fifo)
                    &&& step.interface@ == interface@
                    &&& step.fifo@ == fifo@
                    &&& match (step.extcap_control_in, self.extcap_control_in) {
                        (Some(given), Some(arg)) => given@ == arg@,
                        (None, None) => true,
                        _ => false,
                    }
                    &&& match (step.extcap_control_out, self.extcap_control_out) {
                        (Some(given), Some(arg)) => given@ == arg@,
                        (None, None) => true,
                        _ => false,
                    }
                },
                Err(ExtcapError::CaptureError(CaptureError::MissingFifo)) => {
                    &&& !self.extcap_interfaces
                    &&& self.extcap_interface is Some
                    &&& !self.extcap_config
                    &&& !self.extcap_dlts
                    &&& self.capture
                    &&& self.fifo is None
                },
                Err(ExtcapError::NotExtcapInput) => {
                    &&& !self.extcap_interfaces
                    &&& (self.extcap_interface is None || (!self.extcap_config
                        && !self.extcap_dlts && !self.capture))
                },
                Err(_) => false,
            },
    {
        if self.extcap_interfaces {
            Ok(ExtcapStep::Interfaces(InterfacesStep))
        } else {
            match &self.extcap_interface {
                Some(interface) => {
                    if self.extcap_config {
                        match &self.extcap_reload_option {
                            Some(reload_config) => Ok(
                                ExtcapStep::ReloadConfig(
                                    ReloadConfigStep {
                                        interface: interface.clone(),
                                        config: reload_config.clone(),
                                    },
                                ),
                            ),
                            None => Ok(
                                ExtcapStep::Config(ConfigStep { interface: interface.clone() }),
                            ),
                        }
                    } else if self.extcap_dlts {
                        Ok(ExtcapStep::Dlts(DltsStep { interface: interface.clone() }))
                    } else if self.capture {
                        match &self.fifo {
                            Some(fifo) => Ok(
                                ExtcapStep::Capture(
                                    CaptureStep {
                                        interface: interface.clone(),
                                        fifo: fifo.clone(),
                                        extcap_control_in: clone_option_string(
                                            &self.extcap_control_in,
                                        ),
                                        extcap_control_out: clone_option_string(
                                            &self.extcap_control_out,
                                        ),
                                    },
                                ),
                            ),
                            None => Err(ExtcapError::CaptureError(CaptureError::MissingFifo)),
                        }
                    } else {
                        Err(ExtcapError::NotExtcapInput)
                    }
                },
                None => Err(ExtcapError::NotExtcapInput),
            }
        }
    }
}

/// Clones an optional string, keeping its presence and contents.
fn clone_option_string(value: &Option<String>) -> (r: Option<String>)
    ensures
        match (r, value) {
            (Some(cloned), Some(original)) => cloned@ == original@,
            (None, None) => true,
            _ => false,
        },
{
    match value {
        Some(original) => Some(original.clone()),
        None => None,
    }
}

} // verus!
