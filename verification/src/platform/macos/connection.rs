//! The connection to the macOS Accessibility API.

use vstd::prelude::*;
use vstd::string::*;
use crate::config::Config;
use crate::error::BryndzaError;

verus! {

/// The text that `String::from_utf8_lossy` reads from bytes: their UTF-8
/// decoding, with the replacement character in place of every invalid
/// sequence.
pub uninterp spec fn utf8_lossy(bytes: Seq<u8>) -> Seq<char>;

/// `String::from_utf8_lossy`: decodes bytes as UTF-8 and puts the
/// replacement character in place of every invalid sequence.
#[verifier::external_body]
fn decode_lossy(bytes: &Vec<u8>) -> (text: String)
    ensures
        text@ == utf8_lossy(bytes@),
{
    String::from_utf8_lossy(bytes.as_slice()).into_owned()
}

/// The index of the first zero byte, or the number of bytes where none is
/// zero.
pub open spec fn terminator(bytes: Seq<u8>) -> int
    decreases bytes.len(),
{
    if bytes.len() == 0 {
        0
    } else if bytes[0] == 0 {
        0
    } else {
        1 + terminator(bytes.drop_first())
    }
}

proof fn lemma_terminator(bytes: Seq<u8>, index: int)
    requires
        0 <= index <= bytes.len(),
        forall|k: int| 0 <= k < index ==> bytes[k] != 0,
        index == bytes.len() || bytes[index] == 0,
    ensures
        terminator(bytes) == index,
    decreases bytes.len(),
{
    if index > 0 {
        let rest = bytes.drop_first();
        assert forall|k: int| 0 <= k < index - 1 implies rest[k] != 0 by {
            assert(rest[k] == bytes[k + 1]);
        }
        lemma_terminator(rest, index - 1);
    }
}

/// A connection to the Accessibility API: the configuration that it was
/// made with.
pub struct MacOSConnection {
    config: Config,
}

impl MacOSConnection {
    /// The configuration of the connection.
    pub closed spec fn config(&self) -> Config {
        self.config
    }

    /// The steps that enable the accessibility permissions, one to a line.
    pub open spec fn spec_permissions_help() -> Seq<char> {
        "To enable accessibility permissions:\n1. Open System Preferences (or System Settings on macOS 13+)\n2. Go to Security & Privacy > Privacy > Accessibility\n3. Click the lock icon and enter your password\n4. Add your application to the list or check the box next to it\n5. Restart your application"@
    }

    /// A connection with the given configuration.
    pub fn configured(config: &Config) -> (connection: Self)
        ensures
            connection.config() == *config,
    {
        MacOSConnection { config: config.clone() }
    }

    /// Ends the connection. Nothing is held that needs to be released.
    pub fn disconnect(self) -> (result: Result<(), BryndzaError>)
        ensures
            result is Ok,
    {
        Ok(())
    }

    /// Whether connecting has to check the accessibility permissions first.
    pub fn checks_permissions(&self) -> (checks: bool)
        ensures
            checks == self.config().platform.macos.check_accessibility_permissions,
    {
        self.config.platform.macos.check_accessibility_permissions
    }

    /// The text that a native call has written into `buffer` as a C string:
    /// what precedes the first zero byte, decoded as UTF-8 with the
    /// replacement character in place of every invalid sequence.
    pub fn cfstring_to_string(buffer: &Vec<u8>) -> (text: String)
        ensures
            text@ == utf8_lossy(buffer@.take(terminator(buffer@))),
    {
        let mut bytes: Vec<u8> = Vec::new();
        let mut index: usize = 0;
        while index < buffer.len() && buffer[index] != 0
            invariant
                index <= buffer.len(),
                bytes@ == buffer@.take(index as int),
                forall|k: int| 0 <= k < index ==> buffer@[k] != 0,
            decreases buffer.len() - index,
        {
            bytes.push(buffer[index]);
            index += 1;
            assert(bytes@ =~= buffer@.take(index as int));
        }
        proof {
            lemma_terminator(buffer@, index as int);
        }
        decode_lossy(&bytes)
    }

    /// Tells the user how to enable the accessibility permissions.
    pub fn accessibility_permissions_help() -> (help: String)
        ensures
            help@ == Self::spec_permissions_help(),
    {
        String::from_str(
            "To enable accessibility permissions:\n1. Open System Preferences (or System Settings on macOS 13+)\n2. Go to Security & Privacy > Privacy > Accessibility\n3. Click the lock icon and enter your password\n4. Add your application to the list or check the box next to it\n5. Restart your application",
        )
    }
}

} // verus!
