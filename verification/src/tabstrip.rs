use crate::message::ClientMessage;
use vstd::prelude::*;
use vstd::string::StringExecFns;

verus! {

/// What kind of conversation a tab shows.
pub enum TabType {
    Status,
    Channel(String),
    Private(String),
}

/// One conversation tab.
pub struct Tab {
    pub joined: bool,
    pub name: String,
    pub kind: TabType,
    pub open: bool,
}

impl Tab {
    /// The outgoing message a send into this tab produces: a channel message
    /// for a channel tab, a private message for a private tab, and an error
    /// for the status tab, which accepts no messages.
    pub fn send_message(&self, message: &str) -> (r: Result<ClientMessage, &'static str>)
        ensures
            match self.kind {
                TabType::Status => r matches Err(e) && e@
                    == "Can't send a message into the status window."@,
                TabType::Channel(name) => r matches Ok(m) && m matches ClientMessage::MSG {
                    channel,
                    message: text,
                } && channel == name && text@ == message@,
                TabType::Private(name) => r matches Ok(m) && m matches ClientMessage::PRI {
                    recipient,
                    message: text,
                } && recipient == name && text@ == message@,
            },
    {
        match &self.kind {
            TabType::Status => Err("Can't send a message into the status window."),
            TabType::Channel(name) => Ok(
                ClientMessage::MSG { channel: name.clone(), message: String::from_str(message) },
            ),
            TabType::Private(name) => Ok(
                ClientMessage::PRI { recipient: name.clone(), message: String::from_str(message) },
            ),
        }
    }
}

/// The tab strip: the status tab first, then the open conversations.
pub struct Tabs {
    pub status: Tab,
    pub tabs: Vec<Tab>,
    pub current_tab: u16,
}

impl Tabs {
    /// A fresh strip holding only the status tab, which is current.
    pub fn new() -> (r: Tabs)
        ensures
            r.current_tab == 0,
            r.tabs@ == Seq::<Tab>::empty(),
            r.status.joined,
            r.status.name@ == "Status"@,
            r.status.kind is Status,
            r.status.open,
    {
        Tabs {
            status: Tab {
                joined: true,
                name: String::from_str("Status"),
                kind: TabType::Status,
                open: true,
            },
            tabs: Vec::new(),
            current_tab: 0,
        }
    }

    /// The tab the cursor stands on; an out-of-range cursor falls back to the
    /// status tab and is reset there.
    pub fn get_current(&mut self) -> (r: &Tab)
        ensures
            old(self).current_tab == 0 ==> *r == old(self).status && *final(self) == *old(self),
            0 < old(self).current_tab && old(self).current_tab - 1 < old(self).tabs@.len() ==> *r
                == old(self).tabs@[old(self).current_tab - 1] && *final(self) == *old(self),
            old(self).current_tab - 1 >= old(self).tabs@.len() && old(self).current_tab > 0 ==> *r
                == old(self).status && final(self).current_tab == 0 && final(self).status == old(
                self,
            ).status && final(self).tabs == old(self).tabs,
    {
        if self.current_tab == 0 {
            &self.status
        } else {
            let index = self.current_tab as usize - 1;
            if index < self.tabs.len() {
                &self.tabs[index]
            } else {
                self.current_tab = 0;
                &self.status
            }
        }
    }

    /// Tab number `index`: the status tab is number 0, the conversations
    /// follow in order.
    pub fn get(&self, index: u16) -> (r: Option<&Tab>)
        ensures
            index == 0 ==> (r matches Some(t) && *t == self.status),
            0 < index && index - 1 < self.tabs@.len() ==> (r matches Some(t) && *t
                == self.tabs@[index - 1]),
            index - 1 >= self.tabs@.len() && index > 0 ==> r is None,
    {
        if index == 0 {
            Some(&self.status)
        } else {
            let i = index as usize - 1;
            if i < self.tabs.len() {
                Some(&self.tabs[i])
            } else {
                None
            }
        }
    }
}

} // verus!
