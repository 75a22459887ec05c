//! The extcap interfaces: the entries this program adds to the host's
//! capture list, with the program metadata and the link-layer type each
//! interface captures.

use vstd::prelude::*;

verus! {

use vstd::string::StringSliceAdditionalSpecFns;
use crate::sentences::{dec_bytes, push_literal, push_string, push_u32_dec};
use vstd::utf8::encode_utf8;

/// Metadata for this extcap program, shown by the host in its about dialog
/// and used for the help button.
#[derive(Debug)]
pub struct Metadata {
    /// The version of this extcap program.
    pub version: String,
    /// A URL with more details about this program; opened by the help
    /// button of the config dialog.
    pub help_url: String,
    /// A user-friendly description of this program.
    pub display_description: String,
}

impl crate::PrintSentence for Metadata {
    open spec fn spec_sentence(&self) -> Seq<u8> {
        "extcap {version=".spec_bytes() + encode_utf8(self.version@) + "}{help=".spec_bytes()
            + encode_utf8(self.help_url@) + "}{display=".spec_bytes() + encode_utf8(
            self.display_description@,
        ) + "}\n".spec_bytes()
    }

    fn format_sentence(&self) -> (r: Vec<u8>) {
        let mut out: Vec<u8> = Vec::new();
        push_literal(&mut out, "extcap {version=");
        push_string(&mut out, &self.version);
        push_literal(&mut out, "}{help=");
        push_string(&mut out, &self.help_url);
        push_literal(&mut out, "}{display=");
        push_string(&mut out, &self.display_description);
        push_literal(&mut out, "}\n");
        proof {
            assert(out@ =~= self.spec_sentence());
        }
        out
    }
}

/// The data link type of an interface: how the host should dissect the
/// captured records.
///
/// The `data_link_type` number is the `LINKTYPE_` code registered for the
/// format, for example 1 for Ethernet or 147 to 162 for the private `USER`
/// range; the front end that writes the capture file converts between this
/// number and its file format's own representation.
#[derive(Clone, Debug)]
pub struct Dlt {
    /// The registered link-type code the captured records should be
    /// analyzed as.
    pub data_link_type: u32,
    /// The name of this DLT, typically the registered name without the
    /// `LINKTYPE_` prefix.
    pub name: String,
    /// A user-friendly string describing this DLT.
    pub display: String,
}

impl crate::PrintSentence for Dlt {
    open spec fn spec_sentence(&self) -> Seq<u8> {
        "dlt {number=".spec_bytes() + dec_bytes(self.data_link_type as int)
            + "}{name=".spec_bytes() + encode_utf8(self.name@) + "}{display=".spec_bytes()
            + encode_utf8(self.display@) + "}\n".spec_bytes()
    }

    fn format_sentence(&self) -> (r: Vec<u8>) {
        let mut out: Vec<u8> = Vec::new();
        push_literal(&mut out, "dlt {number=");
        push_u32_dec(&mut out, self.data_link_type);
        push_literal(&mut out, "}{name=");
        push_string(&mut out, &self.name);
        push_literal(&mut out, "}{display=");
        push_string(&mut out, &self.display);
        push_literal(&mut out, "}\n");
        proof {
            assert(out@ =~= self.spec_sentence());
        }
        out
    }
}

/// One capture interface this program offers: an entry in the host's
/// interface list.
#[derive(Debug)]
pub struct Interface {
    /// A unique identifier for this interface. The host passes this value
    /// back in `--extcap-interface` to say which interface later calls
    /// concern, so the list should stay consistent between invocations.
    pub value: String,
    /// A user-readable description of this interface, shown in the host's
    /// interface list.
    pub display: String,
    /// The DLT of this interface. Only one DLT per interface is supported.
    pub dlt: Dlt,
}

impl crate::PrintSentence for Interface {
    open spec fn spec_sentence(&self) -> Seq<u8> {
        "interface {value=".spec_bytes() + encode_utf8(self.value@) + "}{display=".spec_bytes()
            + encode_utf8(self.display@) + "}\n".spec_bytes()
    }

    fn format_sentence(&self) -> (r: Vec<u8>) {
        let mut out: Vec<u8> = Vec::new();
        push_literal(&mut out, "interface {value=");
        push_string(&mut out, &self.value);
        push_literal(&mut out, "}{display=");
        push_string(&mut out, &self.display);
        push_literal(&mut out, "}\n");
        proof {
            assert(out@ =~= self.spec_sentence());
        }
        out
    }
}

} // verus!
