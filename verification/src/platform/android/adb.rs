//! The connection to an Android device over the device bridge.
//!
//! Running the bridge is the caller's part. What is decided here is which
//! device to talk to, from the list that the bridge prints, and which
//! arguments each command gets.

use vstd::prelude::*;
use vstd::string::*;
use crate::config::{clone_text, Config};
use crate::element::element::{Element, SwipeDirection};
use crate::error::BryndzaError;
use crate::text::{contains_text, decimal, decimal_string, is_substring, signed_decimal,
    signed_decimal_string};
use crate::units::Millis;

verus! {

/// The index of the first `wanted` in `text` at or after `start`, or the
/// length of `text` where there is none.
pub open spec fn spec_find(text: Seq<char>, start: int, wanted: char) -> int
    decreases text.len() - start,
{
    if start < 0 || start >= text.len() {
        text.len() as int
    } else if text[start] == wanted {
        start
    } else {
        spec_find(text, start + 1, wanted)
    }
}

/// The serial number of the first device that a device list names as
/// ready, reading from `start`: the text before the first tab of the first
/// line that contains a tab and `device`. With `header` set, the line at
/// `start` is the heading of the list and names no device.
pub open spec fn spec_first_device(list: Seq<char>, start: int, header: bool) -> Option<Seq<char>>
    decreases list.len() - start,
    via lemma_next_line_is_later
{
    if start < 0 || start > list.len() {
        None
    } else {
        let end = spec_find(list, start, '\n');
        let line = list.subrange(start, end);
        if !header && is_substring("\tdevice"@, line) {
            Some(line.subrange(0, spec_find(line, 0, '\t')))
        } else if end >= list.len() {
            None
        } else {
            spec_first_device(list, end + 1, false)
        }
    }
}

/// What a sequence of texts holds.
pub open spec fn texts(words: Seq<String>) -> Seq<Seq<char>> {
    words.map_values(|word: String| word@)
}

/// The point that a swipe of `distance` pixels from `(x, y)` ends at.
pub open spec fn spec_swipe_end(x: int, y: int, direction: SwipeDirection, distance: int) -> (
    int,
    int,
) {
    match direction {
        SwipeDirection::Up => (x, y - distance),
        SwipeDirection::Down => (x, y + distance),
        SwipeDirection::Left => (x - distance, y),
        SwipeDirection::Right => (x + distance, y),
    }
}

#[via_fn]
proof fn lemma_next_line_is_later(list: Seq<char>, start: int, header: bool) {
    if 0 <= start <= list.len() {
        lemma_find_bounds(list, start, '\n');
    }
}

proof fn lemma_find_bounds(text: Seq<char>, start: int, wanted: char)
    requires
        0 <= start <= text.len(),
    ensures
        start <= spec_find(text, start, wanted) <= text.len(),
    decreases text.len() - start,
{
    if start < text.len() && text[start] != wanted {
        lemma_find_bounds(text, start + 1, wanted);
    }
}

fn find(text: &str, start: usize, length: usize, wanted: char) -> (index: usize)
    requires
        start <= length,
        length == text@.len(),
    ensures
        index == spec_find(text@, start as int, wanted),
        start <= index <= length,
{
    let mut index = start;
    while index < length
        invariant
            start <= index <= length,
            length == text@.len(),
            spec_find(text@, start as int, wanted) == spec_find(text@, index as int, wanted),
        decreases length - index,
    {
        if text.get_char(index) == wanted {
            return index;
        }
        index += 1;
    }
    index
}

/// The serial number of the first device that a device list names as
/// ready. The first line of the list is its heading.
pub fn first_listed_device(devices_output: &str) -> (serial: Option<String>)
    ensures
        match spec_first_device(devices_output@, 0, true) {
            Some(text) => serial matches Some(found) && found@ == text,
            None => serial is None,
        },
{
    let length = devices_output.unicode_len();
    let mut start: usize = 0;
    let mut header = true;
    loop
        invariant
            start <= length,
            length == devices_output@.len(),
            spec_first_device(devices_output@, 0, true) == spec_first_device(
                devices_output@,
                start as int,
                header,
            ),
        decreases length - start,
    {
        let end = find(devices_output, start, length, '\n');
        let line = devices_output.substring_char(start, end);
        if !header && contains_text(line, "\tdevice") {
            let line_length = line.unicode_len();
            let tab = find(line, 0, line_length, '\t');
            return Some(String::from_str(line.substring_char(0, tab)));
        }
        if end >= length {
            return None;
        }
        start = end + 1;
        header = false;
    }
}

/// A connection to an Android device: the configuration and the serial
/// number of the device, once one is chosen.
pub struct AdbConnection {
    config: Config,
    device_serial: Option<String>,
}

impl AdbConnection {
    /// The configuration of the connection.
    pub closed spec fn config(&self) -> Config {
        self.config
    }

    /// The serial number of the device, once one is chosen.
    pub closed spec fn device_serial(&self) -> Option<String> {
        self.device_serial
    }

    /// The arguments that select the device: `-s` and the serial number,
    /// or nothing while no device is chosen.
    pub open spec fn spec_device_arguments(&self) -> Seq<Seq<char>> {
        match self.device_serial() {
            Some(serial) => seq!["-s"@, serial@],
            None => Seq::empty(),
        }
    }

    /// A connection with the device that the configuration names, if it
    /// names one.
    pub fn configured(config: &Config) -> (connection: Self)
        ensures
            connection.config() == *config,
            connection.device_serial() == config.platform.android.device_serial,
    {
        AdbConnection {
            config: config.clone(),
            device_serial: clone_text(&config.platform.android.device_serial),
        }
    }

    /// Ends the connection. The device bridge needs no farewell.
    pub fn disconnect(self) -> (result: Result<(), BryndzaError>)
        ensures
            result is Ok,
    {
        Ok(())
    }

    /// The serial number of the device, once one is chosen.
    pub fn serial(&self) -> (serial: &Option<String>)
        ensures
            *serial == self.device_serial(),
    {
        &self.device_serial
    }

    /// Chooses the device from the list that the bridge printed. A device
    /// that is already chosen stays; otherwise the first device that the
    /// list names as ready is taken.
    ///
    /// Fails with a `ConnectionError` where no device is chosen and the
    /// list names none.
    pub fn connect_device(&mut self, devices_output: &str) -> (result: Result<(), BryndzaError>)
        ensures
            final(self).config() == old(self).config(),
            old(self).device_serial() is Some ==> result is Ok && final(self).device_serial()
                == old(self).device_serial(),
            old(self).device_serial() is None ==> match spec_first_device(
                devices_output@,
                0,
                true,
            ) {
                Some(serial) => result is Ok && (final(self).device_serial() matches Some(chosen)
                    && chosen@ == serial),
                None => final(self).device_serial() is None && (result matches Err(
                    BryndzaError::ConnectionError { message },
                ) && message@ == "No Android devices found"@),
            },
    {
        if self.device_serial.is_none() {
            self.device_serial = first_listed_device(devices_output);
        }
        if self.device_serial.is_none() {
            return Err(BryndzaError::connection("No Android devices found"));
        }
        Ok(())
    }

    /// The arguments that select the device.
    pub fn adb_command(&self) -> (arguments: Vec<String>)
        ensures
            texts(arguments@) == self.spec_device_arguments(),
    {
        let mut arguments: Vec<String> = Vec::new();
        match &self.device_serial {
            Some(serial) => {
                arguments.push(String::from_str("-s"));
                arguments.push(serial.clone());
                assert(texts(arguments@) =~= seq!["-s"@, serial@]);
            },
            None => {
                assert(texts(arguments@) =~= Seq::<Seq<char>>::empty());
            },
        }
        arguments
    }

    fn command(&self, words: Vec<String>) -> (arguments: Vec<String>)
        ensures
            texts(arguments@) == self.spec_device_arguments() + texts(words@),
    {
        let mut arguments = self.adb_command();
        let mut words = words;
        let ghost device = arguments@;
        let ghost given = words@;
        arguments.append(&mut words);
        assert(texts(arguments@) =~= texts(device) + texts(given));
        arguments
    }

    /// The arguments of the command that takes a screenshot.
    pub fn screenshot(&self) -> (arguments: Vec<String>)
        ensures
            texts(arguments@) == self.spec_device_arguments() + seq![
                "exec-out"@,
                "screencap"@,
                "-p"@,
            ],
    {
        let mut words: Vec<String> = Vec::new();
        words.push(String::from_str("exec-out"));
        words.push(String::from_str("screencap"));
        words.push(String::from_str("-p"));
        assert(texts(words@) =~= seq!["exec-out"@, "screencap"@, "-p"@]);
        self.command(words)
    }

    /// The arguments of the command that taps the center of `element`.
    pub fn click_element(&self, element: &Element) -> (arguments: Vec<String>)
        requires
            element@.bounds.center_fits(),
        ensures
            texts(arguments@) == self.spec_device_arguments() + seq![
                "shell"@,
                "input"@,
                "tap"@,
                signed_decimal(element@.bounds.center_x()),
                signed_decimal(element@.bounds.center_y()),
            ],
    {
        let center = element.center();
        let mut words: Vec<String> = Vec::new();
        words.push(String::from_str("shell"));
        words.push(String::from_str("input"));
        words.push(String::from_str("tap"));
        words.push(signed_decimal_string(center.x as i64));
        words.push(signed_decimal_string(center.y as i64));
        assert(texts(words@) =~= seq![
            "shell"@,
            "input"@,
            "tap"@,
            signed_decimal(element@.bounds.center_x()),
            signed_decimal(element@.bounds.center_y()),
        ]);
        self.command(words)
    }

    /// The arguments of the command that presses the center of `element`
    /// for `duration`: a swipe that stays where it begins.
    pub fn long_press_element(&self, element: &Element, duration: Millis) -> (arguments: Vec<
        String,
    >)
        requires
            element@.bounds.center_fits(),
        ensures
            texts(arguments@) == self.spec_device_arguments() + seq![
                "shell"@,
                "input"@,
                "swipe"@,
                signed_decimal(element@.bounds.center_x()),
                signed_decimal(element@.bounds.center_y()),
                signed_decimal(element@.bounds.center_x()),
                signed_decimal(element@.bounds.center_y()),
                decimal(duration.millis as nat),
            ],
    {
        let center = element.center();
        let mut words: Vec<String> = Vec::new();
        words.push(String::from_str("shell"));
        words.push(String::from_str("input"));
        words.push(String::from_str("swipe"));
        words.push(signed_decimal_string(center.x as i64));
        words.push(signed_decimal_string(center.y as i64));
        words.push(signed_decimal_string(center.x as i64));
        words.push(signed_decimal_string(center.y as i64));
        words.push(decimal_string(duration.millis));
        assert(texts(words@) =~= seq![
            "shell"@,
            "input"@,
            "swipe"@,
            signed_decimal(element@.bounds.center_x()),
            signed_decimal(element@.bounds.center_y()),
            signed_decimal(element@.bounds.center_x()),
            signed_decimal(element@.bounds.center_y()),
            decimal(duration.millis as nat),
        ]);
        self.command(words)
    }

    /// The arguments of the command that types `text`.
    pub fn type_text(&self, text: &str) -> (arguments: Vec<String>)
        ensures
            texts(arguments@) == self.spec_device_arguments() + seq![
                "shell"@,
                "input"@,
                "text"@,
                text@,
            ],
    {
        let mut words: Vec<String> = Vec::new();
        words.push(String::from_str("shell"));
        words.push(String::from_str("input"));
        words.push(String::from_str("text"));
        words.push(String::from_str(text));
        assert(texts(words@) =~= seq!["shell"@, "input"@, "text"@, text@]);
        self.command(words)
    }

    /// The arguments of the command that sends the key event `key`.
    pub fn key_event(&self, key: &str) -> (arguments: Vec<String>)
        ensures
            texts(arguments@) == self.spec_device_arguments() + seq![
                "shell"@,
                "input"@,
                "keyevent"@,
                key@,
            ],
    {
        let mut words: Vec<String> = Vec::new();
        words.push(String::from_str("shell"));
        words.push(String::from_str("input"));
        words.push(String::from_str("keyevent"));
        words.push(String::from_str(key));
        assert(texts(words@) =~= seq!["shell"@, "input"@, "keyevent"@, key@]);
        self.command(words)
    }

    /// The commands that clear the text of `element`, in their order: a
    /// tap on it, the key event that selects everything, and the key event
    /// that deletes the selection.
    pub fn clear_element(&self, element: &Element) -> (commands: (
        Vec<String>,
        Vec<String>,
        Vec<String>,
    ))
        requires
            element@.bounds.center_fits(),
        ensures
            texts(commands.0@) == self.spec_device_arguments() + seq![
                "shell"@,
                "input"@,
                "tap"@,
                signed_decimal(element@.bounds.center_x()),
                signed_decimal(element@.bounds.center_y()),
            ],
            texts(commands.1@) == self.spec_device_arguments() + seq![
                "shell"@,
                "input"@,
                "keyevent"@,
                "KEYCODE_CTRL_A"@,
            ],
            texts(commands.2@) == self.spec_device_arguments() + seq![
                "shell"@,
                "input"@,
                "keyevent"@,
                "KEYCODE_DEL"@,
            ],
    {
        (
            self.click_element(element),
            self.key_event("KEYCODE_CTRL_A"),
            self.key_event("KEYCODE_DEL"),
        )
    }

    /// The arguments of the command that swipes from the center of
    /// `element` by `distance` pixels in the given direction.
    pub fn swipe_element(
        &self,
        element: &Element,
        direction: SwipeDirection,
        distance: i32,
    ) -> (arguments: Vec<String>)
        requires
            element@.bounds.center_fits(),
        ensures
            texts(arguments@) == self.spec_device_arguments() + seq![
                "shell"@,
                "input"@,
                "swipe"@,
                signed_decimal(element@.bounds.center_x()),
                signed_decimal(element@.bounds.center_y()),
                signed_decimal(
                    spec_swipe_end(
                        element@.bounds.center_x(),
                        element@.bounds.center_y(),
                        direction,
                        distance as int,
                    ).0,
                ),
                signed_decimal(
                    spec_swipe_end(
                        element@.bounds.center_x(),
                        element@.bounds.center_y(),
                        direction,
                        distance as int,
                    ).1,
                ),
            ],
    {
        let center = element.center();
        let x = center.x as i64;
        let y = center.y as i64;
        let by = distance as i64;
        let (end_x, end_y) = match direction {
            SwipeDirection::Up => (x, y - by),
            SwipeDirection::Down => (x, y + by),
            SwipeDirection::Left => (x - by, y),
            SwipeDirection::Right => (x + by, y),
        };
        let mut words: Vec<String> = Vec::new();
        words.push(String::from_str("shell"));
        words.push(String::from_str("input"));
        words.push(String::from_str("swipe"));
        words.push(signed_decimal_string(x));
        words.push(signed_decimal_string(y));
        words.push(signed_decimal_string(end_x));
        words.push(signed_decimal_string(end_y));
        assert(texts(words@) =~= seq![
            "shell"@,
            "input"@,
            "swipe"@,
            signed_decimal(x as int),
            signed_decimal(y as int),
            signed_decimal(end_x as int),
            signed_decimal(end_y as int),
        ]);
        self.command(words)
    }
}

} // verus!
