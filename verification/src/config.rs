//! The extcap configs, also known as `arg`s: UI elements shown by the host
//! that let the user customize a capture before it starts.
//!
//! Each interface can have options that are valid for it alone; the host
//! asks for them in the config phase and passes the chosen values back on
//! the command line when the capture starts. Every config renders itself as
//! one `arg` sentence, followed, for the choice-like configs, by one `value`
//! sentence per option.

use vstd::prelude::*;

verus! {

use vstd::string::StringSliceAdditionalSpecFns;
use crate::sentences::{
    bool_bytes, dec_bytes, dec_bytes_signed, push_bool, push_i32_dec, push_i64_dec, push_literal,
    push_string, push_u32_dec, push_u8_dec,
};
use vstd::utf8::encode_utf8;

/// A config, that is an `arg` in the sentence grammar: a UI element shown
/// by the host that lets the user customize the capture.
pub trait ConfigTrait: crate::PrintSentence {
    /// The command line option this config is passed back under, as a
    /// specification-level value.
    spec fn spec_call(&self) -> Seq<char>;

    /// The command line option that will be passed back to this program.
    /// For example, if this is `delay` and the user chose `42`, then
    /// `--delay 42` is passed during the capture phase.
    fn call(&self) -> (r: &String)
        ensures
            r@ == self.spec_call(),
    ;
}

/// An option of a [`SelectorConfig`] or a [`RadioConfig`].
#[derive(Clone, Debug)]
pub struct ConfigOptionValue {
    /// The value passed back on the command line if this option is
    /// selected.
    pub value: String,
    /// The user-visible label for this option.
    pub display: String,
    /// Whether this option is selected as the default. Each config should
    /// have exactly one default.
    pub default: bool,
}

/// The declaration sentence of one config option, tied to its config's
/// number.
pub open spec fn config_option_sentence(option: ConfigOptionValue, number: u8) -> Seq<u8> {
    "value {arg=".spec_bytes() + dec_bytes(number as int) + "}{value=".spec_bytes() + encode_utf8(
        option.value@,
    ) + "}{display=".spec_bytes() + encode_utf8(option.display@) + "}{default=".spec_bytes()
        + bool_bytes(option.default) + "}\n".spec_bytes()
}

/// The declaration sentences of a list of config options, in order.
pub open spec fn config_option_sentences(options: Seq<ConfigOptionValue>, number: u8) -> Seq<u8>
    decreases options.len(),
{
    if options.len() == 0 {
        Seq::empty()
    } else {
        config_option_sentences(options.drop_last(), number) + config_option_sentence(
            options.last(),
            number,
        )
    }
}

impl ConfigOptionValue {
    /// Renders the declaration sentence for this option under the config
    /// that carries the given number.
    pub fn format_sentence(&self, number: u8) -> (r: Vec<u8>)
        ensures
            r@ == config_option_sentence(*self, number),
    {
        let mut out: Vec<u8> = Vec::new();
        push_literal(&mut out, "value {arg=");
        push_u8_dec(&mut out, number);
        push_literal(&mut out, "}{value=");
        push_string(&mut out, &self.value);
        push_literal(&mut out, "}{display=");
        push_string(&mut out, &self.display);
        push_literal(&mut out, "}{default=");
        push_bool(&mut out, self.default);
        push_literal(&mut out, "}\n");
        proof {
            assert(out@ =~= config_option_sentence(*self, number));
        }
        out
    }
}

/// Appends the declaration sentences of `options`, in order.
fn push_config_options(out: &mut Vec<u8>, options: &Vec<ConfigOptionValue>, number: u8)
    ensures
        final(out)@ == old(out)@ + config_option_sentences(options@, number),
{
    let ghost head = out@;
    let mut i: usize = 0;
    while i < options.len()
        invariant
            i <= options.len(),
            out@ == head + config_option_sentences(options@.take(i as int), number),
        decreases options.len() - i,
    {
        let mut line = options[i].format_sentence(number);
        out.append(&mut line);
        proof {
            assert(options@.take(i + 1int).drop_last() =~= options@.take(i as int));
            assert(options@.take(i + 1int).last() == options@[i as int]);
        }
        i = i + 1;
    }
    proof {
        assert(options@.take(options@.len() as int) =~= options@);
    }
}

/// The reload behaviour of a [`SelectorConfig`]: a button shown next to the
/// selector that replaces its option list.
///
/// When the user presses the button, the host runs this program again with
/// `--extcap-reload-option` naming the config; the reload phase answers
/// with the `options` given here, rendered as `value` sentences.
#[derive(Debug)]
pub struct Reload {
    /// The label of the reload button shown next to the selector.
    pub label: String,
    /// The options the reload phase answers with.
    pub options: Vec<ConfigOptionValue>,
}

/// A drop-down selector from which the user picks one of a fixed list of
/// options. The option list should carry `default == true` on exactly one
/// entry.
#[derive(Debug)]
pub struct SelectorConfig {
    /// The config number, a unique identifier for this config.
    pub config_number: u8,
    /// The command line option that will be passed back to this program.
    pub call: String,
    /// The user-friendly label for the selector.
    pub display: String,
    /// The tooltip shown when hovering over the UI element.
    pub tooltip: Option<String>,
    /// If this is `Some`, a reload button is shown next to the selector;
    /// pressing it replaces the option list. In the sentence grammar the
    /// button label key is, oddly, `placeholder`.
    pub reload: Option<Reload>,
    /// The user-visible name of the config tab this config belongs to; a
    /// config without a group lands in a tab called `Default`.
    pub group: Option<String>,
    /// The default list of options presented by this selector.
    pub default_options: Vec<ConfigOptionValue>,
}

impl ConfigTrait for SelectorConfig {
    open spec fn spec_call(&self) -> Seq<char> {
        self.call@
    }

    fn call(&self) -> &String {
        &self.call
    }
}

impl crate::PrintSentence for SelectorConfig {
    open spec fn spec_sentence(&self) -> Seq<u8> {
        "arg {number=".spec_bytes() + dec_bytes(self.config_number as int)
            + "}{call=--".spec_bytes() + encode_utf8(self.call@) + "}{display=".spec_bytes()
            + encode_utf8(self.display@) + "}".spec_bytes() + crate::sentences::opt_string_field("{tooltip=", self.tooltip) + "{type=selector}".spec_bytes() + match self.reload {
            Some(reload) => "{reload=true}{placeholder=".spec_bytes() + encode_utf8(reload.label@)
                + "}".spec_bytes(),
            None => Seq::<u8>::empty(),
        } + crate::sentences::opt_string_field("{group=", self.group) + "\n".spec_bytes() + config_option_sentences(self.default_options@, self.config_number)
    }

    #[verifier::rlimit(100)]
    fn format_sentence(&self) -> (r: Vec<u8>) {
        let mut out: Vec<u8> = Vec::new();
        push_literal(&mut out, "arg {number=");
        push_u8_dec(&mut out, self.config_number);
        push_literal(&mut out, "}{call=--");
        push_string(&mut out, &self.call);
        push_literal(&mut out, "}{display=");
        push_string(&mut out, &self.display);
        push_literal(&mut out, "}");
        crate::sentences::push_opt_string_field(&mut out, "{tooltip=", &self.tooltip);
        push_literal(&mut out, "{type=selector}");
        if let Some(reload) = &self.reload {
            push_literal(&mut out, "{reload=true}{placeholder=");
            push_string(&mut out, &reload.label);
            push_literal(&mut out, "}");
        }
        crate::sentences::push_opt_string_field(&mut out, "{group=", &self.group);
        push_literal(&mut out, "\n");
        push_config_options(&mut out, &self.default_options, self.config_number);
        proof {
            assert(out@ =~= self.spec_sentence());
        }
        out
    }
}

/// A list of radio buttons from which the user picks one value. The option
/// list should carry `default == true` on exactly one entry.
#[derive(Debug)]
pub struct RadioConfig {
    /// The config number, a unique identifier for this config.
    pub config_number: u8,
    /// The command line option that will be passed back to this program.
    pub call: String,
    /// The user-friendly label for the radio buttons.
    pub display: String,
    /// The tooltip shown when hovering over the UI element.
    pub tooltip: Option<String>,
    /// The user-visible name of the config tab this config belongs to.
    pub group: Option<String>,
    /// The list of options presented by this config.
    pub options: Vec<ConfigOptionValue>,
}

impl ConfigTrait for RadioConfig {
    open spec fn spec_call(&self) -> Seq<char> {
        self.call@
    }

    fn call(&self) -> &String {
        &self.call
    }
}

impl crate::PrintSentence for RadioConfig {
    open spec fn spec_sentence(&self) -> Seq<u8> {
        "arg {number=".spec_bytes() + dec_bytes(self.config_number as int)
            + "}{call=--".spec_bytes() + encode_utf8(self.call@) + "}{display=".spec_bytes()
            + encode_utf8(self.display@) + "}".spec_bytes() + crate::sentences::opt_string_field("{tooltip=", self.tooltip) + crate::sentences::opt_string_field("{group=", self.group) + "{type=radio}\n".spec_bytes() + config_option_sentences(
            self.options@,
            self.config_number,
        )
    }

    #[verifier::rlimit(100)]
    fn format_sentence(&self) -> (r: Vec<u8>) {
        let mut out: Vec<u8> = Vec::new();
        push_literal(&mut out, "arg {number=");
        push_u8_dec(&mut out, self.config_number);
        push_literal(&mut out, "}{call=--");
        push_string(&mut out, &self.call);
        push_literal(&mut out, "}{display=");
        push_string(&mut out, &self.display);
        push_literal(&mut out, "}");
        crate::sentences::push_opt_string_field(&mut out, "{tooltip=", &self.tooltip);
        crate::sentences::push_opt_string_field(&mut out, "{group=", &self.group);
        push_literal(&mut out, "{type=radio}\n");
        push_config_options(&mut out, &self.options, self.config_number);
        proof {
            assert(out@ =~= self.spec_sentence());
        }
        out
    }
}

/// Relies on `core::ops::RangeInclusive::start`: returns the stored lower
/// bound of the range, which the range's view models.
pub assume_specification<Idx>[ core::ops::RangeInclusive::<Idx>::start ](
    r: &core::ops::RangeInclusive<Idx>,
) -> (ret: &Idx)
    ensures
        *ret == r@.start,
;

/// Relies on `core::ops::RangeInclusive::end`: returns the stored upper
/// bound of the range, which the range's view models.
pub assume_specification<Idx>[ core::ops::RangeInclusive::<Idx>::end ](
    r: &core::ops::RangeInclusive<Idx>,
) -> (ret: &Idx)
    ensures
        *ret == r@.end,
;

/// The `{range=low,high}` part of a numeric config's sentence.
pub open spec fn range_bytes(start: int, end: int) -> Seq<u8> {
    "{range=".spec_bytes() + dec_bytes_signed(start) + ",".spec_bytes() + dec_bytes_signed(end)
        + "}".spec_bytes()
}

/// A field for a 64-bit signed numeric value, with an optional valid range
/// and a default.
#[derive(Debug)]
pub struct LongConfig {
    /// The config number, a unique identifier for this config.
    pub config_number: u8,
    /// The command line option that will be passed back to this program.
    pub call: String,
    /// The user-friendly label for the numeric field.
    pub display: String,
    /// The tooltip shown when hovering over the UI element.
    pub tooltip: Option<String>,
    /// The valid range of values for this config.
    pub range: Option<core::ops::RangeInclusive<i64>>,
    /// The default value for this config.
    pub default_value: i64,
    /// The user-visible name of the config tab this config belongs to.
    pub group: Option<String>,
}

impl ConfigTrait for LongConfig {
    open spec fn spec_call(&self) -> Seq<char> {
        self.call@
    }

    fn call(&self) -> &String {
        &self.call
    }
}

impl crate::PrintSentence for LongConfig {
    open spec fn spec_sentence(&self) -> Seq<u8> {
        "arg {number=".spec_bytes() + dec_bytes(self.config_number as int)
            + "}{call=--".spec_bytes() + encode_utf8(self.call@) + "}{display=".spec_bytes()
            + encode_utf8(self.display@) + "}".spec_bytes() + crate::sentences::opt_string_field("{tooltip=", self.tooltip) + match self.range {
            Some(range) => range_bytes(range@.start as int, range@.end as int),
            None => Seq::<u8>::empty(),
        } + "{default=".spec_bytes() + dec_bytes_signed(self.default_value as int)
            + "}{type=long}".spec_bytes() + crate::sentences::opt_string_field("{group=", self.group) + "\n".spec_bytes()
    }

    #[verifier::rlimit(100)]
    fn format_sentence(&self) -> (r: Vec<u8>) {
        let mut out: Vec<u8> = Vec::new();
        push_literal(&mut out, "arg {number=");
        push_u8_dec(&mut out, self.config_number);
        push_literal(&mut out, "}{call=--");
        push_string(&mut out, &self.call);
        push_literal(&mut out, "}{display=");
        push_string(&mut out, &self.display);
        push_literal(&mut out, "}");
        crate::sentences::push_opt_string_field(&mut out, "{tooltip=", &self.tooltip);
        if let Some(range) = &self.range {
            push_literal(&mut out, "{range=");
            push_i64_dec(&mut out, *range.start());
            push_literal(&mut out, ",");
            push_i64_dec(&mut out, *range.end());
            push_literal(&mut out, "}");
        }
        push_literal(&mut out, "{default=");
        push_i64_dec(&mut out, self.default_value);
        push_literal(&mut out, "}{type=long}");
        crate::sentences::push_opt_string_field(&mut out, "{group=", &self.group);
        push_literal(&mut out, "\n");
        proof {
            assert(out@ =~= self.spec_sentence());
        }
        out
    }
}

/// A field for a 32-bit signed numeric value, with an optional valid range
/// and a default.
#[derive(Debug)]
pub struct IntegerConfig {
    /// The config number, a unique identifier for this config.
    pub config_number: u8,
    /// The command line option that will be passed back to this program.
    pub call: String,
    /// The user-friendly label for the numeric field.
    pub display: String,
    /// The tooltip shown when hovering over the UI element.
    pub tooltip: Option<String>,
    /// The valid range of values for this config.
    pub range: Option<core::ops::RangeInclusive<i32>>,
    /// The default value for this config.
    pub default_value: i32,
    /// The user-visible name of the config tab this config belongs to.
    pub group: Option<String>,
}

impl ConfigTrait for IntegerConfig {
    open spec fn spec_call(&self) -> Seq<char> {
        self.call@
    }

    fn call(&self) -> &String {
        &self.call
    }
}

impl crate::PrintSentence for IntegerConfig {
    open spec fn spec_sentence(&self) -> Seq<u8> {
        "arg {number=".spec_bytes() + dec_bytes(self.config_number as int)
            + "}{call=--".spec_bytes() + encode_utf8(self.call@) + "}{display=".spec_bytes()
            + encode_utf8(self.display@) + "}".spec_bytes() + crate::sentences::opt_string_field("{tooltip=", self.tooltip) + match self.range {
            Some(range) => range_bytes(range@.start as int, range@.end as int),
            None => Seq::<u8>::empty(),
        } + "{default=".spec_bytes() + dec_bytes_signed(self.default_value as int)
            + "}{type=integer}".spec_bytes() + crate::sentences::opt_string_field("{group=", self.group) + "\n".spec_bytes()
    }

    #[verifier::rlimit(100)]
    fn format_sentence(&self) -> (r: Vec<u8>) {
        let mut out: Vec<u8> = Vec::new();
        push_literal(&mut out, "arg {number=");
        push_u8_dec(&mut out, self.config_number);
        push_literal(&mut out, "}{call=--");
        push_string(&mut out, &self.call);
        push_literal(&mut out, "}{display=");
        push_string(&mut out, &self.display);
        push_literal(&mut out, "}");
        crate::sentences::push_opt_string_field(&mut out, "{tooltip=", &self.tooltip);
        if let Some(range) = &self.range {
            push_literal(&mut out, "{range=");
            push_i32_dec(&mut out, *range.start());
            push_literal(&mut out, ",");
            push_i32_dec(&mut out, *range.end());
            push_literal(&mut out, "}");
        }
        push_literal(&mut out, "{default=");
        push_i32_dec(&mut out, self.default_value);
        push_literal(&mut out, "}{type=integer}");
        crate::sentences::push_opt_string_field(&mut out, "{group=", &self.group);
        push_literal(&mut out, "\n");
        proof {
            assert(out@ =~= self.spec_sentence());
        }
        out
    }
}

/// A field for a 32-bit unsigned numeric value, with an optional valid
/// range and a default.
#[derive(Debug)]
pub struct UnsignedConfig {
    /// The config number, a unique identifier for this config.
    pub config_number: u8,
    /// The command line option that will be passed back to this program.
    pub call: String,
    /// The user-friendly label for the numeric field.
    pub display: String,
    /// The tooltip shown when hovering over the UI element.
    pub tooltip: Option<String>,
    /// The valid range of values for this config.
    pub range: Option<core::ops::RangeInclusive<u32>>,
    /// The default value for this config.
    pub default_value: u32,
    /// The user-visible name of the config tab this config belongs to.
    pub group: Option<String>,
}

impl ConfigTrait for UnsignedConfig {
    open spec fn spec_call(&self) -> Seq<char> {
        self.call@
    }

    fn call(&self) -> &String {
        &self.call
    }
}

impl crate::PrintSentence for UnsignedConfig {
    open spec fn spec_sentence(&self) -> Seq<u8> {
        "arg {number=".spec_bytes() + dec_bytes(self.config_number as int)
            + "}{call=--".spec_bytes() + encode_utf8(self.call@) + "}{display=".spec_bytes()
            + encode_utf8(self.display@) + "}".spec_bytes() + crate::sentences::opt_string_field("{tooltip=", self.tooltip) + match self.range {
            Some(range) => range_bytes(range@.start as int, range@.end as int),
            None => Seq::<u8>::empty(),
        } + "{default=".spec_bytes() + dec_bytes(self.default_value as int)
            + "}{type=unsigned}".spec_bytes() + crate::sentences::opt_string_field("{group=", self.group) + "\n".spec_bytes()
    }

    #[verifier::rlimit(100)]
    fn format_sentence(&self) -> (r: Vec<u8>) {
        let mut out: Vec<u8> = Vec::new();
        push_literal(&mut out, "arg {number=");
        push_u8_dec(&mut out, self.config_number);
        push_literal(&mut out, "}{call=--");
        push_string(&mut out, &self.call);
        push_literal(&mut out, "}{display=");
        push_string(&mut out, &self.display);
        push_literal(&mut out, "}");
        crate::sentences::push_opt_string_field(&mut out, "{tooltip=", &self.tooltip);
        if let Some(range) = &self.range {
            push_literal(&mut out, "{range=");
            push_u32_dec(&mut out, *range.start());
            push_literal(&mut out, ",");
            push_u32_dec(&mut out, *range.end());
            push_literal(&mut out, "}");
        }
        push_literal(&mut out, "{default=");
        push_u32_dec(&mut out, self.default_value);
        push_literal(&mut out, "}{type=unsigned}");
        crate::sentences::push_opt_string_field(&mut out, "{group=", &self.group);
        push_literal(&mut out, "\n");
        proof {
            assert(out@ =~= self.spec_sentence());
        }
        out
    }
}

/// A field for entering a text value.
#[derive(Debug)]
pub struct StringConfig {
    /// The config number, a unique identifier for this config.
    pub config_number: u8,
    /// The command line option that will be passed back to this program.
    pub call: String,
    /// The user-friendly label for the text field.
    pub display: String,
    /// The tooltip shown when hovering over the UI element.
    pub tooltip: Option<String>,
    /// The placeholder string displayed while the text field is empty.
    pub placeholder: Option<String>,
    /// Whether a value is required for this config.
    pub required: bool,
    /// The user-visible name of the config tab this config belongs to.
    pub group: Option<String>,
    /// A regular expression string used to check the user input for
    /// validity. Back-slashes need no escaping beyond Rust's own.
    pub validation: Option<String>,
    /// Whether the host saves the value and restores it the next time the
    /// interface is selected.
    pub save: bool,
}

impl ConfigTrait for StringConfig {
    open spec fn spec_call(&self) -> Seq<char> {
        self.call@
    }

    fn call(&self) -> &String {
        &self.call
    }
}

impl crate::PrintSentence for StringConfig {
    open spec fn spec_sentence(&self) -> Seq<u8> {
        "arg {number=".spec_bytes() + dec_bytes(self.config_number as int)
            + "}{call=--".spec_bytes() + encode_utf8(self.call@) + "}{display=".spec_bytes()
            + encode_utf8(self.display@) + "}".spec_bytes() + crate::sentences::opt_string_field("{tooltip=", self.tooltip) + crate::sentences::opt_string_field("{placeholder=", self.placeholder) + if self.required {
            "{required=true}".spec_bytes()
        } else {
            Seq::<u8>::empty()
        } + crate::sentences::opt_string_field("{validation=", self.validation) + crate::sentences::opt_string_field("{group=", self.group) + "{save=".spec_bytes() + bool_bytes(self.save) + "}{type=string}\n".spec_bytes()
    }

    #[verifier::rlimit(100)]
    fn format_sentence(&self) -> (r: Vec<u8>) {
        let mut out: Vec<u8> = Vec::new();
        push_literal(&mut out, "arg {number=");
        push_u8_dec(&mut out, self.config_number);
        push_literal(&mut out, "}{call=--");
        push_string(&mut out, &self.call);
        push_literal(&mut out, "}{display=");
        push_string(&mut out, &self.display);
        push_literal(&mut out, "}");
        crate::sentences::push_opt_string_field(&mut out, "{tooltip=", &self.tooltip);
        crate::sentences::push_opt_string_field(&mut out, "{placeholder=", &self.placeholder);
        if self.required {
            push_literal(&mut out, "{required=true}");
        }
        crate::sentences::push_opt_string_field(&mut out, "{validation=", &self.validation);
        crate::sentences::push_opt_string_field(&mut out, "{group=", &self.group);
        push_literal(&mut out, "{save=");
        push_bool(&mut out, self.save);
        push_literal(&mut out, "}{type=string}\n");
        proof {
            assert(out@ =~= self.spec_sentence());
        }
        out
    }
}

/// A field for entering a text value that is masked in the UI. The host
/// never saves the value of a password field.
#[derive(Debug)]
pub struct PasswordConfig {
    /// The config number, a unique identifier for this config.
    pub config_number: u8,
    /// The command line option that will be passed back to this program.
    pub call: String,
    /// The user-friendly label for the password field.
    pub display: String,
    /// The tooltip shown when hovering over the UI element.
    pub tooltip: Option<String>,
    /// The placeholder string displayed while the field is empty.
    pub placeholder: Option<String>,
    /// Whether a value is required for this config.
    pub required: bool,
    /// A regular expression string used to check the user input for
    /// validity.
    pub validation: Option<String>,
    /// The user-visible name of the config tab this config belongs to.
    pub group: Option<String>,
}

impl ConfigTrait for PasswordConfig {
    open spec fn spec_call(&self) -> Seq<char> {
        self.call@
    }

    fn call(&self) -> &String {
        &self.call
    }
}

impl crate::PrintSentence for PasswordConfig {
    open spec fn spec_sentence(&self) -> Seq<u8> {
        "arg {number=".spec_bytes() + dec_bytes(self.config_number as int)
            + "}{call=--".spec_bytes() + encode_utf8(self.call@) + "}{display=".spec_bytes()
            + encode_utf8(self.display@) + "}".spec_bytes() + crate::sentences::opt_string_field("{tooltip=", self.tooltip) + crate::sentences::opt_string_field("{placeholder=", self.placeholder) + if self.required {
            "{required=true}".spec_bytes()
        } else {
            Seq::<u8>::empty()
        } + crate::sentences::opt_string_field("{validation=", self.validation) + crate::sentences::opt_string_field("{group=", self.group) + "{type=password}\n".spec_bytes()
    }

    #[verifier::rlimit(100)]
    fn format_sentence(&self) -> (r: Vec<u8>) {
        let mut out: Vec<u8> = Vec::new();
        push_literal(&mut out, "arg {number=");
        push_u8_dec(&mut out, self.config_number);
        push_literal(&mut out, "}{call=--");
        push_string(&mut out, &self.call);
        push_literal(&mut out, "}{display=");
        push_string(&mut out, &self.display);
        push_literal(&mut out, "}");
        crate::sentences::push_opt_string_field(&mut out, "{tooltip=", &self.tooltip);
        crate::sentences::push_opt_string_field(&mut out, "{placeholder=", &self.placeholder);
        if self.required {
            push_literal(&mut out, "{required=true}");
        }
        crate::sentences::push_opt_string_field(&mut out, "{validation=", &self.validation);
        crate::sentences::push_opt_string_field(&mut out, "{group=", &self.group);
        push_literal(&mut out, "{type=password}\n");
        proof {
            assert(out@ =~= self.spec_sentence());
        }
        out
    }
}

/// A config that is displayed as a date and time editor.
#[derive(Debug)]
pub struct TimestampConfig {
    /// The config number, a unique identifier for this config.
    pub config_number: u8,
    /// The command line option that will be passed back to this program.
    pub call: String,
    /// The user-friendly label for the config.
    pub display: String,
    /// The tooltip shown when hovering over the UI element.
    pub tooltip: Option<String>,
    /// The user-visible name of the config tab this config belongs to.
    pub group: Option<String>,
}

impl ConfigTrait for TimestampConfig {
    open spec fn spec_call(&self) -> Seq<char> {
        self.call@
    }

    fn call(&self) -> &String {
        &self.call
    }
}

impl crate::PrintSentence for TimestampConfig {
    open spec fn spec_sentence(&self) -> Seq<u8> {
        "arg {number=".spec_bytes() + dec_bytes(self.config_number as int)
            + "}{call=--".spec_bytes() + encode_utf8(self.call@) + "}{display=".spec_bytes()
            + encode_utf8(self.display@) + "}".spec_bytes() + crate::sentences::opt_string_field("{tooltip=", self.tooltip) + crate::sentences::opt_string_field("{group=", self.group) + "{type=timestamp}\n".spec_bytes()
    }

    fn format_sentence(&self) -> (r: Vec<u8>) {
        let mut out: Vec<u8> = Vec::new();
        push_literal(&mut out, "arg {number=");
        push_u8_dec(&mut out, self.config_number);
        push_literal(&mut out, "}{call=--");
        push_string(&mut out, &self.call);
        push_literal(&mut out, "}{display=");
        push_string(&mut out, &self.display);
        push_literal(&mut out, "}");
        crate::sentences::push_opt_string_field(&mut out, "{tooltip=", &self.tooltip);
        crate::sentences::push_opt_string_field(&mut out, "{group=", &self.group);
        push_literal(&mut out, "{type=timestamp}\n");
        proof {
            assert(out@ =~= self.spec_sentence());
        }
        out
    }
}

/// A config that lets the user pick a file path.
#[derive(Debug)]
pub struct FileSelectConfig {
    /// The config number, a unique identifier for this config.
    pub config_number: u8,
    /// The command line option that will be passed back to this program.
    pub call: String,
    /// The user-friendly label for the file selector.
    pub display: String,
    /// The tooltip shown when hovering over the UI element.
    pub tooltip: Option<String>,
    /// The user-visible name of the config tab this config belongs to.
    pub group: Option<String>,
    /// If true, the host shows a dialog for picking an existing file; if
    /// false, one for naming a file to save.
    pub must_exist: bool,
    /// An optional filter on the selectable file extensions, in the file
    /// dialog's filter syntax, such as `Text files (*.txt);;XML files
    /// (*.xml)`.
    pub file_extension_filter: Option<String>,
}

impl ConfigTrait for FileSelectConfig {
    open spec fn spec_call(&self) -> Seq<char> {
        self.call@
    }

    fn call(&self) -> &String {
        &self.call
    }
}

impl crate::PrintSentence for FileSelectConfig {
    open spec fn spec_sentence(&self) -> Seq<u8> {
        "arg {number=".spec_bytes() + dec_bytes(self.config_number as int)
            + "}{call=--".spec_bytes() + encode_utf8(self.call@) + "}{display=".spec_bytes()
            + encode_utf8(self.display@) + "}".spec_bytes() + crate::sentences::opt_string_field("{tooltip=", self.tooltip) + crate::sentences::opt_string_field("{group=", self.group) + "{type=fileselect}{mustexist=".spec_bytes() + bool_bytes(self.must_exist)
            + "}".spec_bytes() + crate::sentences::opt_string_field("{fileext=", self.file_extension_filter) + "\n".spec_bytes()
    }

    #[verifier::rlimit(100)]
    fn format_sentence(&self) -> (r: Vec<u8>) {
        let mut out: Vec<u8> = Vec::new();
        push_literal(&mut out, "arg {number=");
        push_u8_dec(&mut out, self.config_number);
        push_literal(&mut out, "}{call=--");
        push_string(&mut out, &self.call);
        push_literal(&mut out, "}{display=");
        push_string(&mut out, &self.display);
        push_literal(&mut out, "}");
        crate::sentences::push_opt_string_field(&mut out, "{tooltip=", &self.tooltip);
        crate::sentences::push_opt_string_field(&mut out, "{group=", &self.group);
        push_literal(&mut out, "{type=fileselect}{mustexist=");
        push_bool(&mut out, self.must_exist);
        push_literal(&mut out, "}");
        crate::sentences::push_opt_string_field(&mut out, "{fileext=", &self.file_extension_filter);
        push_literal(&mut out, "\n");
        proof {
            assert(out@ =~= self.spec_sentence());
        }
        out
    }
}

/// A checkbox config with a true or false value.
#[derive(Debug)]
pub struct BooleanConfig {
    /// The config number, a unique identifier for this config.
    pub config_number: u8,
    /// The command line option that will be passed back to this program.
    pub call: String,
    /// The user-friendly label for the check box.
    pub display: String,
    /// The tooltip shown when hovering over the UI element.
    pub tooltip: Option<String>,
    /// The default value for this config.
    pub default_value: bool,
    /// The user-visible name of the config tab this config belongs to.
    pub group: Option<String>,
    /// If true the command line flag always carries a value, `--foo true`
    /// or `--foo false`; if false the flag is passed bare when checked and
    /// omitted when unchecked.
    pub always_include_option: bool,
}

impl ConfigTrait for BooleanConfig {
    open spec fn spec_call(&self) -> Seq<char> {
        self.call@
    }

    fn call(&self) -> &String {
        &self.call
    }
}

impl crate::PrintSentence for BooleanConfig {
    open spec fn spec_sentence(&self) -> Seq<u8> {
        "arg {number=".spec_bytes() + dec_bytes(self.config_number as int)
            + "}{call=--".spec_bytes() + encode_utf8(self.call@) + "}{display=".spec_bytes()
            + encode_utf8(self.display@) + "}".spec_bytes() + crate::sentences::opt_string_field("{tooltip=", self.tooltip) + if self.default_value {
            "{default=true}".spec_bytes()
        } else {
            Seq::<u8>::empty()
        } + if self.always_include_option {
            "{type=boolean}".spec_bytes()
        } else {
            "{type=boolflag}".spec_bytes()
        } + crate::sentences::opt_string_field("{group=", self.group) + "\n".spec_bytes()
    }

    #[verifier::rlimit(100)]
    fn format_sentence(&self) -> (r: Vec<u8>) {
        let mut out: Vec<u8> = Vec::new();
        push_literal(&mut out, "arg {number=");
        push_u8_dec(&mut out, self.config_number);
        push_literal(&mut out, "}{call=--");
        push_string(&mut out, &self.call);
        push_literal(&mut out, "}{display=");
        push_string(&mut out, &self.display);
        push_literal(&mut out, "}");
        crate::sentences::push_opt_string_field(&mut out, "{tooltip=", &self.tooltip);
        if self.default_value {
            push_literal(&mut out, "{default=true}");
        }
        if self.always_include_option {
            push_literal(&mut out, "{type=boolean}");
        } else {
            push_literal(&mut out, "{type=boolflag}");
        }
        crate::sentences::push_opt_string_field(&mut out, "{group=", &self.group);
        push_literal(&mut out, "\n");
        proof {
            assert(out@ =~= self.spec_sentence());
        }
        out
    }
}

/// One checkbox in a [`MultiCheckConfig`]. Checkboxes nest through the
/// `children` field; children are indented under their parent in the UI but
/// are passed back on the command line the same way.
#[derive(Debug)]
pub struct MultiCheckValue {
    /// The value passed back on the command line when this box is checked.
    pub value: String,
    /// The user-friendly label for this check box.
    pub display: String,
    /// Whether the box is checked by default.
    pub default_value: bool,
    /// Whether this checkbox is enabled.
    pub enabled: bool,
    /// The checkboxes nested under this one.
    pub children: Vec<MultiCheckValue>,
}

/// The declaration sentence of one multicheck box, followed by those of its
/// children, each naming this box as its parent.
pub open spec fn multicheck_value_sentence(
    value: MultiCheckValue,
    number: u8,
    parent: Option<Seq<char>>,
) -> Seq<u8>
    decreases value,
{
    multicheck_value_head(value, number, parent) + multicheck_sentences(
        value.children@,
        number,
        Some(value.value@),
    )
}

/// The declaration sentence of one multicheck box alone, without those of
/// its children.
pub open spec fn multicheck_value_head(
    value: MultiCheckValue,
    number: u8,
    parent: Option<Seq<char>>,
) -> Seq<u8> {
    "value {arg=".spec_bytes() + dec_bytes(number as int) + "}{value=".spec_bytes() + encode_utf8(
        value.value@,
    ) + "}{display=".spec_bytes() + encode_utf8(value.display@) + "}{default=".spec_bytes()
        + bool_bytes(value.default_value) + "}{enabled=".spec_bytes() + bool_bytes(value.enabled)
        + "}".spec_bytes() + match parent {
        Some(parent_value) => "{parent=".spec_bytes() + encode_utf8(parent_value)
            + "}".spec_bytes(),
        None => Seq::<u8>::empty(),
    } + "\n".spec_bytes()
}

/// The declaration sentences of a list of multicheck boxes and all their
/// descendants, in order.
pub open spec fn multicheck_sentences(
    values: Seq<MultiCheckValue>,
    number: u8,
    parent: Option<Seq<char>>,
) -> Seq<u8>
    decreases values,
{
    if values.len() == 0 {
        Seq::empty()
    } else {
        multicheck_sentences(values.drop_last(), number, parent) + multicheck_value_sentence(
            values.last(),
            number,
            parent,
        )
    }
}

/// The view of an optional parent value string.
spec fn parent_view(parent: Option<&String>) -> Option<Seq<char>> {
    match parent {
        Some(parent_value) => Some(parent_value@),
        None => None,
    }
}

/// Appends the declaration sentence of one multicheck box alone.
#[verifier::rlimit(100)]
#[verifier::spinoff_prover]
fn push_multicheck_head(
    out: &mut Vec<u8>,
    value: &MultiCheckValue,
    number: u8,
    parent: Option<&String>,
)
    ensures
        final(out)@ == old(out)@ + multicheck_value_head(*value, number, parent_view(parent)),
{
    push_literal(out, "value {arg=");
    push_u8_dec(out, number);
    push_literal(out, "}{value=");
    push_string(out, &value.value);
    push_literal(out, "}{display=");
    push_string(out, &value.display);
    push_literal(out, "}{default=");
    push_bool(out, value.default_value);
    push_literal(out, "}{enabled=");
    push_bool(out, value.enabled);
    push_literal(out, "}");
    match parent {
        Some(parent_value) => {
            push_literal(out, "{parent=");
            push_string(out, parent_value);
            push_literal(out, "}");
        },
        None => (),
    }
    push_literal(out, "\n");
    proof {
        assert(final(out)@ =~= old(out)@ + multicheck_value_head(
            *value,
            number,
            parent_view(parent),
        ));
    }
}

/// Appends the declaration sentence of one multicheck box and, after it,
/// those of its children.
fn push_multicheck_value(
    out: &mut Vec<u8>,
    value: &MultiCheckValue,
    number: u8,
    parent: Option<&String>,
)
    ensures
        final(out)@ == old(out)@ + multicheck_value_sentence(*value, number, parent_view(parent)),
    decreases *value,
{
    push_multicheck_head(out, value, number, parent);
    push_multicheck_list(out, &value.children, number, Some(&value.value));
}

/// Appends the declaration sentences of a list of multicheck boxes and all
/// their descendants, in order.
fn push_multicheck_list(
    out: &mut Vec<u8>,
    values: &Vec<MultiCheckValue>,
    number: u8,
    parent: Option<&String>,
)
    ensures
        final(out)@ == old(out)@ + multicheck_sentences(values@, number, parent_view(parent)),
    decreases values@,
{
    let ghost head = out@;
    let mut i: usize = 0;
    while i < values.len()
        invariant
            i <= values.len(),
            out@ == head + multicheck_sentences(values@.take(i as int), number, parent_view(parent)),
        decreases values@.len() - i,
    {
        push_multicheck_value(out, &values[i], number, parent);
        proof {
            assert(values@.take(i + 1int).drop_last() =~= values@.take(i as int));
            assert(values@.take(i + 1int).last() == values@[i as int]);
        }
        i = i + 1;
    }
    proof {
        assert(values@.take(values@.len() as int) =~= values@);
    }
}

/// A tree of hierarchical checkboxes. The values of all checked boxes are
/// passed back comma-separated under one command line option.
#[derive(Debug)]
pub struct MultiCheckConfig {
    /// The config number, a unique identifier for this config.
    pub config_number: u8,
    /// The command line option that will be passed back to this program.
    pub call: String,
    /// The user-friendly label for the tree of checkboxes.
    pub display: String,
    /// The tooltip shown when hovering over the UI element.
    pub tooltip: Option<String>,
    /// The user-visible name of the config tab this config belongs to.
    pub group: Option<String>,
    /// The roots of the checkbox tree.
    pub options: Vec<MultiCheckValue>,
}

impl ConfigTrait for MultiCheckConfig {
    open spec fn spec_call(&self) -> Seq<char> {
        self.call@
    }

    fn call(&self) -> &String {
        &self.call
    }
}

impl crate::PrintSentence for MultiCheckConfig {
    open spec fn spec_sentence(&self) -> Seq<u8> {
        "arg {number=".spec_bytes() + dec_bytes(self.config_number as int)
            + "}{call=--".spec_bytes() + encode_utf8(self.call@) + "}{display=".spec_bytes()
            + encode_utf8(self.display@) + "}".spec_bytes() + crate::sentences::opt_string_field("{tooltip=", self.tooltip) + crate::sentences::opt_string_field("{group=", self.group) + "{type=multicheck}\n".spec_bytes() + multicheck_sentences(
            self.options@,
            self.config_number,
            None,
        )
    }

    #[verifier::rlimit(100)]
    fn format_sentence(&self) -> (r: Vec<u8>) {
        let mut out: Vec<u8> = Vec::new();
        push_literal(&mut out, "arg {number=");
        push_u8_dec(&mut out, self.config_number);
        push_literal(&mut out, "}{call=--");
        push_string(&mut out, &self.call);
        push_literal(&mut out, "}{display=");
        push_string(&mut out, &self.display);
        push_literal(&mut out, "}");
        crate::sentences::push_opt_string_field(&mut out, "{tooltip=", &self.tooltip);
        crate::sentences::push_opt_string_field(&mut out, "{group=", &self.group);
        push_literal(&mut out, "{type=multicheck}\n");
        push_multicheck_list(&mut out, &self.options, self.config_number, None);
        proof {
            assert(out@ =~= self.spec_sentence());
        }
        out
    }
}

} // verus!
