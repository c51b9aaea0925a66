//! The accumulator for one outgoing message.
//!
//! Handler code fills a `Response` through the context; `send` reads it and
//! does not clear it, so a later `send` resends whatever has accumulated by
//! then ("accumulate, not replace"): that is what lets one handler invocation
//! produce several messages.

use vstd::prelude::*;
use vstd::string::StringExecFns;
use crate::params::seq_of_views;

verus! {

/// The fields of one outgoing message: its text, its attachment descriptors
/// in the order they were added, and an optional inline keyboard.
#[derive(Debug)]
pub struct Response {
    message: String,
    attachments: Vec<String>,
    keyboard: Option<serde_json::Value>,
}

impl Response {
    /// The accumulated message text.
    pub closed spec fn spec_message(&self) -> Seq<char> {
        self.message@
    }

    /// The accumulated attachment descriptors, in insertion order.
    pub closed spec fn spec_attachments(&self) -> Seq<Seq<char>> {
        seq_of_views(self.attachments@)
    }

    /// The keyboard, if one was set.
    pub closed spec fn spec_keyboard(&self) -> Option<serde_json::Value> {
        self.keyboard
    }

    /// A fresh, empty response: no text, no attachments, no keyboard.
    pub fn new() -> (r: Response)
        ensures
            r.spec_message() == Seq::<char>::empty(),
            r.spec_attachments() == Seq::<Seq<char>>::empty(),
            r.spec_keyboard() is None,
    {
        let r = Response { message: String::new(), attachments: Vec::new(), keyboard: None };
        proof {
            assert(r.spec_attachments() =~= Seq::<Seq<char>>::empty());
        }
        r
    }

    /// The message text.
    pub fn message(&self) -> (m: &String)
        ensures
            m@ == self.spec_message(),
    {
        &self.message
    }

    /// Replaces the message text.
    pub fn set_message(&mut self, message: String)
        ensures
            final(self).spec_message() == message@,
            final(self).spec_attachments() == old(self).spec_attachments(),
            final(self).spec_keyboard() == old(self).spec_keyboard(),
    {
        self.message = message;
    }

    /// Appends to the message text.
    pub fn append_message(&mut self, text: &str)
        ensures
            final(self).spec_message() == old(self).spec_message() + text@,
            final(self).spec_attachments() == old(self).spec_attachments(),
            final(self).spec_keyboard() == old(self).spec_keyboard(),
    {
        self.message.append(text);
    }

    /// The attachment descriptors, in insertion order.
    pub fn attachments(&self) -> (a: &Vec<String>)
        ensures
            seq_of_views(a@) == self.spec_attachments(),
    {
        &self.attachments
    }

    /// Adds one attachment descriptor after the ones already added.
    pub fn add_attachment(&mut self, attachment: String)
        ensures
            final(self).spec_attachments() == old(self).spec_attachments().push(attachment@),
            final(self).spec_message() == old(self).spec_message(),
            final(self).spec_keyboard() == old(self).spec_keyboard(),
    {
        let ghost a = attachment@;
        self.attachments.push(attachment);
        proof {
            assert(final(self).spec_attachments() =~= old(self).spec_attachments().push(a));
        }
    }

    /// The keyboard, if one was set.
    pub fn keyboard(&self) -> (k: Option<&serde_json::Value>)
        ensures
            match k {
                Some(v) => self.spec_keyboard() == Some(*v),
                None => self.spec_keyboard() is None,
            },
    {
        match &self.keyboard {
            Some(v) => Some(v),
            None => None,
        }
    }

    /// Sets the keyboard, replacing any earlier one.
    pub fn set_keyboard(&mut self, keyboard: serde_json::Value)
        ensures
            final(self).spec_keyboard() == Some(keyboard),
            final(self).spec_message() == old(self).spec_message(),
            final(self).spec_attachments() == old(self).spec_attachments(),
    {
        self.keyboard = Some(keyboard);
    }
}

} // verus!
