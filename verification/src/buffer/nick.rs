//! Nicks of a buffer's nicklist.
use vstd::prelude::*;
use crate::call::{Call, HostCall, Plan, Step};
use crate::text::{without_nuls, LossyCString};
use crate::weechat::Weechat;

verus! {

/// The settings of a nick that is to be made.
pub struct NickSettings<'a> {
    /// Name of the new nick.
    pub name: &'a str,
    /// Color for the nick.
    pub color: &'a str,
    /// Prefix that will be shown before the name.
    pub prefix: &'a str,
    /// Color of the prefix.
    pub prefix_color: &'a str,
    /// Should the nick be visible in the nicklist.
    pub visible: bool,
}

impl<'a> NickSettings<'a> {
    /// Settings for a visible nick of the given name, with no color and no
    /// prefix.
    pub fn new(name: &'a str) -> (settings: NickSettings<'a>)
        ensures
            settings.name@ == name@,
            settings.color@ == Seq::<char>::empty(),
            settings.prefix@ == Seq::<char>::empty(),
            settings.prefix_color@ == Seq::<char>::empty(),
            settings.visible,
    {
        proof {
            reveal_strlit("");
        }
        NickSettings { name, color: "", prefix: "", prefix_color: "", visible: true }
    }

    /// The same settings with another color.
    pub fn set_color(self, color: &'a str) -> (settings: NickSettings<'a>)
        ensures
            settings == (NickSettings { color, ..self }),
    {
        let mut settings = self;
        settings.color = color;
        settings
    }

    /// The same settings with another prefix.
    pub fn set_prefix(self, prefix: &'a str) -> (settings: NickSettings<'a>)
        ensures
            settings == (NickSettings { prefix, ..self }),
    {
        let mut settings = self;
        settings.prefix = prefix;
        settings
    }

    /// The same settings with another color of the prefix.
    pub fn set_prefix_color(self, prefix_color: &'a str) -> (settings: NickSettings<'a>)
        ensures
            settings == (NickSettings { prefix_color, ..self }),
    {
        let mut settings = self;
        settings.prefix_color = prefix_color;
        settings
    }

    /// The same settings, with the nick shown or hidden.
    pub fn set_visible(self, visible: bool) -> (settings: NickSettings<'a>)
        ensures
            settings == (NickSettings { visible, ..self }),
    {
        let mut settings = self;
        settings.visible = visible;
        settings
    }
}

/// Nick creation arguments.
pub struct NickArgs<'a> {
    /// Name of the new nick.
    pub name: &'a str,
    /// Color for the nick.
    pub color: &'a str,
    /// Prefix that will be shown before the name.
    pub prefix: &'a str,
    /// Color of the prefix.
    pub prefix_color: &'a str,
    /// Should the nick be visible in the nicklist.
    pub visible: bool,
}

impl<'a> Default for NickArgs<'a> {
    /// A visible nick with no name, no color and no prefix.
    fn default() -> (args: NickArgs<'a>)
        ensures
            args.name@ == Seq::<char>::empty(),
            args.color@ == Seq::<char>::empty(),
            args.prefix@ == Seq::<char>::empty(),
            args.prefix_color@ == Seq::<char>::empty(),
            args.visible,
    {
        proof {
            reveal_strlit("");
        }
        NickArgs { name: "", color: "", prefix: "", prefix_color: "", visible: true }
    }
}

/// A nick in the nicklist of a buffer. The handle keeps neither alive.
#[derive(Debug, Clone, Copy, PartialEq, Eq, Structural)]
pub struct Nick {
    /// The address of the nick.
    pub ptr: usize,
    /// The address of the buffer in whose nicklist the nick is.
    pub buf_ptr: usize,
    /// The plugin through which both are reached.
    pub weechat_ptr: usize,
}

impl Nick {
    /// The handle of the host through which the nick is reached.
    pub fn get_weechat(&self) -> (weechat: Weechat)
        ensures
            weechat.address() == self.weechat_ptr,
    {
        Weechat::from_ptr(self.weechat_ptr)
    }

    /// The call that asks for a string property of the nick.
    pub open spec fn get_string_call(self, property: Seq<char>) -> Call<Seq<char>> {
        Call::NicklistNickGetString {
            plugin: self.weechat_ptr,
            buffer: self.buf_ptr,
            nick: self.ptr,
            property: without_nuls(property),
        }
    }

    /// What [`Nick::get_string`] comes to.
    pub open spec fn get_string_plan(
        self,
        property: Seq<char>,
        found: Option<Option<String>>,
    ) -> Plan<Option<String>> {
        match found {
            None => Plan::Ask(self.get_string_call(property)),
            Some(text) => Plan::Done(text),
        }
    }

    fn ask_string(&self, property: &str) -> (call: HostCall)
        ensures
            call@ == self.get_string_call(property@),
    {
        Call::NicklistNickGetString {
            plugin: self.weechat_ptr,
            buffer: self.buf_ptr,
            nick: self.ptr,
            property: LossyCString::new(property),
        }
    }

    /// Gets a string property of the nick: one of name, color, prefix or
    /// prefix_color. The host answers an unknown property with an empty
    /// string.
    ///
    /// `found` is the host's answer, once there is one: the text, or nothing
    /// where the host gave a null pointer. Without it the step asks for the
    /// call; with it the step is done and hands the answer on.
    pub fn get_string(&self, property: &str, found: Option<Option<String>>) -> (step: Step<
        Option<String>,
    >)
        ensures
            step@ == self.get_string_plan(property@, found),
    {
        match found {
            None => Step::Ask(self.ask_string(property)),
            Some(text) => Step::Done(text),
        }
    }

    /// What [`Nick::get_name`] comes to.
    pub open spec fn get_name_plan(self, found: Option<Option<String>>) -> Plan<String>
        recommends
            found != Some(None::<String>),
    {
        match found {
            Some(Some(name)) => Plan::Done(name),
            _ => Plan::Ask(self.get_string_call("name"@)),
        }
    }

    /// Gets the name of the nick: its property `name`. A nick always has one,
    /// so an answer without a text is not provided for.
    pub fn get_name(&self, found: Option<Option<String>>) -> (step: Step<String>)
        requires
            found != Some(None::<String>),
        ensures
            step@ == self.get_name_plan(found),
    {
        match found {
            Some(Some(name)) => Step::Done(name),
            _ => Step::Ask(self.ask_string("name")),
        }
    }

    /// The call that removes the nick from its nicklist. The host gives no
    /// answer.
    pub fn remove(&self) -> (call: HostCall)
        ensures
            call@ == (Call::<Seq<char>>::NicklistRemoveNick {
                plugin: self.weechat_ptr,
                buffer: self.buf_ptr,
                nick: self.ptr,
            }),
    {
        Call::NicklistRemoveNick { plugin: self.weechat_ptr, buffer: self.buf_ptr, nick: self.ptr }
    }
}

} // verus!
