pub mod messages;

use crate::config::{Config, Settings};
use crate::tabs::messages::Log;
use vstd::prelude::*;
use vstd::string::StringExecFns;

verus! {

/// Which conversation a tab shows; `T` names the channel or partner.
pub enum TabType<T> {
    Status,
    Channel(T),
    Private(T),
}

/// A channel conversation.
pub struct ChannelTab {
    pub joined: bool,
    pub name: String,
    pub id: String,
    pub messages: Log,
}

/// A private conversation.
pub struct PrivateTab {
    pub id: String,
    pub messages: Log,
}

pub open spec fn has_channel(s: Seq<ChannelTab>, id: Seq<char>) -> bool {
    exists|i: int| 0 <= i < s.len() && s[i].id@ == id
}

pub open spec fn has_private(s: Seq<PrivateTab>, id: Seq<char>) -> bool {
    exists|i: int| 0 <= i < s.len() && s[i].id@ == id
}

pub open spec fn channel_ids_unique(s: Seq<ChannelTab>) -> bool {
    forall|i: int, j: int| 0 <= i < j < s.len() ==> s[i].id@ != s[j].id@
}

pub open spec fn private_ids_unique(s: Seq<PrivateTab>) -> bool {
    forall|i: int, j: int| 0 <= i < j < s.len() ==> s[i].id@ != s[j].id@
}

/// Every open and closed conversation, the order of the tab strip, and which
/// tab the cursor stands on. A conversation is keyed by its id; each id is
/// open or closed at most once.
pub struct Tabs {
    pub status: Log,
    pub channel_tabs: Vec<ChannelTab>,
    pub private_tabs: Vec<PrivateTab>,
    pub tab_order: Vec<TabType<String>>,
    pub closed_channel_tabs: Vec<ChannelTab>,
    pub closed_private_tabs: Vec<PrivateTab>,
    pub current_tab: u16,
    pub joined_count: u16,
    pub display_buffer_size: u16,
    pub settings: Settings,
}

fn find_channel(tabs: &Vec<ChannelTab>, key: &String) -> (r: Option<usize>)
    ensures
        r matches Some(i) ==> i < tabs@.len() && tabs@[i as int].id@ == key@,
        r is None ==> !has_channel(tabs@, key@),
{
    let mut i: usize = 0;
    while i < tabs.len()
        invariant
            i <= tabs@.len(),
            forall|j: int| 0 <= j < i ==> tabs@[j].id@ != key@,
        decreases tabs@.len() - i,
    {
        if tabs[i].id == *key {
            return Some(i);
        }
        i = i + 1;
    }
    None
}

fn find_private(tabs: &Vec<PrivateTab>, key: &String) -> (r: Option<usize>)
    ensures
        r matches Some(i) ==> i < tabs@.len() && tabs@[i as int].id@ == key@,
        r is None ==> !has_private(tabs@, key@),
{
    let mut i: usize = 0;
    while i < tabs.len()
        invariant
            i <= tabs@.len(),
            forall|j: int| 0 <= j < i ==> tabs@[j].id@ != key@,
        decreases tabs@.len() - i,
    {
        if tabs[i].id == *key {
            return Some(i);
        }
        i = i + 1;
    }
    None
}

proof fn lemma_private_remove_unique(s: Seq<PrivateTab>, k: int)
    requires
        private_ids_unique(s),
        0 <= k < s.len(),
    ensures
        private_ids_unique(s.remove(k)),
        forall|i: int| 0 <= i < s.remove(k).len() ==> s.remove(k)[i].id@ != s[k].id@,
{
    let t = s.remove(k);
    assert forall|i: int, j: int| 0 <= i < j < t.len() implies t[i].id@ != t[j].id@ by {
        let i0 = if i < k {
            i
        } else {
            i + 1
        };
        let j0 = if j < k {
            j
        } else {
            j + 1
        };
        assert(t[i] == s[i0]);
        assert(t[j] == s[j0]);
    }
    assert forall|i: int| 0 <= i < t.len() implies t[i].id@ != s[k].id@ by {
        let i0 = if i < k {
            i
        } else {
            i + 1
        };
        assert(t[i] == s[i0]);
    }
}

proof fn lemma_channel_remove_unique(s: Seq<ChannelTab>, k: int)
    requires
        channel_ids_unique(s),
        0 <= k < s.len(),
    ensures
        channel_ids_unique(s.remove(k)),
        forall|i: int| 0 <= i < s.remove(k).len() ==> s.remove(k)[i].id@ != s[k].id@,
{
    let t = s.remove(k);
    assert forall|i: int, j: int| 0 <= i < j < t.len() implies t[i].id@ != t[j].id@ by {
        let i0 = if i < k {
            i
        } else {
            i + 1
        };
        let j0 = if j < k {
            j
        } else {
            j + 1
        };
        assert(t[i] == s[i0]);
        assert(t[j] == s[j0]);
    }
    assert forall|i: int| 0 <= i < t.len() implies t[i].id@ != s[k].id@ by {
        let i0 = if i < k {
            i
        } else {
            i + 1
        };
        assert(t[i] == s[i0]);
    }
}

/// The private side of `Tabs` after a private tab for `id` was added: the
/// channel side untouched, one more join counted, the strip ending in the new
/// tab. The tab itself is the closed conversation with that id when one
/// existed, else a fresh one; an open conversation with that id is replaced.
pub open spec fn private_tab_added(pre: Tabs, post: Tabs, id: Seq<char>) -> bool {
    &&& post.tab_order@.last() matches TabType::Private(s) && s@ == id
    &&& post.joined_count == pre.joined_count + 1
    &&& post.channel_tabs == pre.channel_tabs
    &&& post.closed_channel_tabs == pre.closed_channel_tabs
    &&& post.private_tabs@.len() >= 1
    &&& post.private_tabs@.last().id@ == id
    &&& if has_private(pre.private_tabs@, id) {
        exists|k: int|
            0 <= k < pre.private_tabs@.len() && pre.private_tabs@[k].id@ == id
                && post.private_tabs@.drop_last() == pre.private_tabs@.remove(k)
    } else {
        post.private_tabs@.drop_last() == pre.private_tabs@
    }
    &&& if has_private(pre.closed_private_tabs@, id) {
        exists|j: int|
            0 <= j < pre.closed_private_tabs@.len() && pre.closed_private_tabs@[j].id@ == id
                && post.private_tabs@.last() == pre.closed_private_tabs@[j]
                && post.closed_private_tabs@ == pre.closed_private_tabs@.remove(j)
    } else {
        &&& post.closed_private_tabs == pre.closed_private_tabs
        &&& post.private_tabs@.last().messages.messages@ == Seq::<messages::Message>::empty()
        &&& post.private_tabs@.last().messages.display_buffer.capacity()
            == pre.settings.buffer_size as nat
    }
}

/// The channel side of `Tabs` after a channel tab for `id` was added; the
/// mirror image of `private_tab_added`, except that the join count waits for
/// the server's confirmation and a fresh tab starts unjoined.
pub open spec fn channel_tab_added(pre: Tabs, post: Tabs, id: Seq<char>) -> bool {
    &&& post.tab_order@.last() matches TabType::Channel(s) && s@ == id
    &&& post.joined_count == pre.joined_count
    &&& post.private_tabs == pre.private_tabs
    &&& post.closed_private_tabs == pre.closed_private_tabs
    &&& post.channel_tabs@.len() >= 1
    &&& post.channel_tabs@.last().id@ == id
    &&& if has_channel(pre.channel_tabs@, id) {
        exists|k: int|
            0 <= k < pre.channel_tabs@.len() && pre.channel_tabs@[k].id@ == id
                && post.channel_tabs@.drop_last() == pre.channel_tabs@.remove(k)
    } else {
        post.channel_tabs@.drop_last() == pre.channel_tabs@
    }
    &&& if has_channel(pre.closed_channel_tabs@, id) {
        exists|j: int|
            0 <= j < pre.closed_channel_tabs@.len() && pre.closed_channel_tabs@[j].id@ == id
                && post.channel_tabs@.last() == pre.closed_channel_tabs@[j]
                && post.closed_channel_tabs@ == pre.closed_channel_tabs@.remove(j)
    } else {
        &&& post.closed_channel_tabs == pre.closed_channel_tabs
        &&& !post.channel_tabs@.last().joined
        &&& post.channel_tabs@.last().name@ == id
        &&& post.channel_tabs@.last().messages.messages@ == Seq::<messages::Message>::empty()
        &&& post.channel_tabs@.last().messages.display_buffer.capacity()
            == pre.settings.buffer_size as nat
    }
}

impl Tabs {
    pub open spec fn wf(&self) -> bool {
        &&& self.status.wf()
        &&& channel_ids_unique(self.channel_tabs@)
        &&& channel_ids_unique(self.closed_channel_tabs@)
        &&& private_ids_unique(self.private_tabs@)
        &&& private_ids_unique(self.closed_private_tabs@)
        &&& self.current_tab <= self.tab_order@.len()
    }

    /// An empty tab set: only the status tab exists, and it is current.
    pub fn new(config: &Config) -> (r: Tabs)
        ensures
            r.wf(),
            r.status.messages@ == Seq::<messages::Message>::empty(),
            r.status.display_buffer.capacity() == config.settings.buffer_size as nat,
            r.channel_tabs@ == Seq::<ChannelTab>::empty(),
            r.private_tabs@ == Seq::<PrivateTab>::empty(),
            r.tab_order@ == Seq::<TabType<String>>::empty(),
            r.closed_channel_tabs@ == Seq::<ChannelTab>::empty(),
            r.closed_private_tabs@ == Seq::<PrivateTab>::empty(),
            r.current_tab == 0,
            r.joined_count == 0,
            r.display_buffer_size == config.settings.buffer_size,
            r.settings == config.settings,
    {
        Tabs {
            status: Log::new(config.settings.buffer_size),
            channel_tabs: Vec::new(),
            private_tabs: Vec::new(),
            tab_order: Vec::new(),
            closed_channel_tabs: Vec::new(),
            closed_private_tabs: Vec::new(),
            current_tab: 0,
            joined_count: 0,
            display_buffer_size: config.settings.buffer_size,
            settings: config.settings,
        }
    }

    /// Whether every tab on the strip has been joined.
    pub fn all_joined(&self) -> (r: bool)
        ensures
            r == (self.tab_order@.len() == self.joined_count as nat),
    {
        self.tab_order.len() == self.joined_count as usize
    }

    /// Which tab the cursor stands on: the status tab for cursor 0, else the
    /// strip entry; a cursor past the strip is reset to the status tab and
    /// reported as an error, as is a strip entry whose conversation is gone.
    pub fn get_current(&mut self) -> (r: Result<TabType<String>, &'static str>)
        requires
            old(self).wf(),
        ensures
            final(self).wf(),
            final(self).status == old(self).status,
            final(self).channel_tabs == old(self).channel_tabs,
            final(self).private_tabs == old(self).private_tabs,
            final(self).tab_order == old(self).tab_order,
            final(self).closed_channel_tabs == old(self).closed_channel_tabs,
            final(self).closed_private_tabs == old(self).closed_private_tabs,
            final(self).joined_count == old(self).joined_count,
            old(self).current_tab == 0 ==> (r matches Ok(t) && t is Status && final(self).current_tab
                == 0),
            0 < old(self).current_tab <= old(self).tab_order@.len() ==> {
                &&& final(self).current_tab == old(self).current_tab
                &&& match old(self).tab_order@[old(self).current_tab - 1] {
                    TabType::Status => r matches Ok(t) && t is Status,
                    TabType::Channel(id) => {
                        if has_channel(old(self).channel_tabs@, id@) {
                            r matches Ok(t) && t matches TabType::Channel(c) && c@ == id@
                        } else {
                            r matches Err(e) && e@ == "Couldn't find tab in channel_tabs"@
                        }
                    },
                    TabType::Private(id) => {
                        if has_private(old(self).private_tabs@, id@) {
                            r matches Ok(t) && t matches TabType::Private(c) && c@ == id@
                        } else {
                            r matches Err(e) && e@ == "Couldn't find tab in private_tabs"@
                        }
                    },
                }
            },
            old(self).current_tab > old(self).tab_order@.len() ==> (final(self).current_tab == 0
                && (r matches Err(e) && e@ == "current_tab wasn't valid"@)),
    {
        if self.current_tab == 0 {
            return Ok(TabType::Status);
        }
        let index = self.current_tab as usize - 1;
        if index >= self.tab_order.len() {
            self.current_tab = 0;
            return Err("current_tab wasn't valid");
        }
        match &self.tab_order[index] {
            TabType::Status => Ok(TabType::Status),
            TabType::Channel(id) => match find_channel(&self.channel_tabs, id) {
                Some(i) => Ok(TabType::Channel(self.channel_tabs[i].id.clone())),
                None => Err("Couldn't find tab in channel_tabs"),
            },
            TabType::Private(id) => match find_private(&self.private_tabs, id) {
                Some(i) => Ok(TabType::Private(self.private_tabs[i].id.clone())),
                None => Err("Couldn't find tab in private_tabs"),
            },
        }
    }

    /// Open a tab for `id`, reviving a closed conversation when one exists,
    /// and put the cursor on it. A private tab counts as joined at once; a
    /// channel tab not until the server confirms. An already open
    /// conversation with the same id is replaced.
    pub fn add_tab(&mut self, id: &str, private: bool)
        requires
            old(self).wf(),
            old(self).joined_count < 65535,
            old(self).tab_order@.len() < 65535,
        ensures
            final(self).wf(),
            final(self).status == old(self).status,
            final(self).settings == old(self).settings,
            final(self).display_buffer_size == old(self).display_buffer_size,
            final(self).tab_order@.len() == old(self).tab_order@.len() + 1,
            final(self).tab_order@.take(old(self).tab_order@.len() as int) == old(self).tab_order@,
            final(self).current_tab == final(self).tab_order@.len(),
            private ==> private_tab_added(*old(self), *final(self), id@),
            !private ==> channel_tab_added(*old(self), *final(self), id@),
    {
        let key = String::from_str(id);
        if private {
            self.joined_count = self.joined_count + 1;
            let ghost closed0 = self.closed_private_tabs@;
            let ghost open0 = self.private_tabs@;
            let found_closed = find_private(&self.closed_private_tabs, &key);
            let tab = match found_closed {
                Some(j) => {
                    proof {
                        lemma_private_remove_unique(closed0, j as int);
                    }
                    self.closed_private_tabs.remove(j)
                },
                None => PrivateTab {
                    id: key.clone(),
                    messages: Log::new(self.settings.buffer_size),
                },
            };
            let found_open = find_private(&self.private_tabs, &key);
            match found_open {
                Some(k) => {
                    proof {
                        lemma_private_remove_unique(open0, k as int);
                    }
                    self.private_tabs.remove(k);
                },
                None => {},
            }
            let ghost before_push = self.private_tabs@;
            self.private_tabs.push(tab);
            self.tab_order.push(TabType::Private(key));
            proof {
                assert(self.private_tabs@.drop_last() =~= before_push);
                assert forall|a: int, b: int|
                    0 <= a < b < self.private_tabs@.len() implies self.private_tabs@[a].id@
                    != self.private_tabs@[b].id@ by {
                    if b < before_push.len() {
                        assert(self.private_tabs@[a] == before_push[a]);
                        assert(self.private_tabs@[b] == before_push[b]);
                    } else {
                        assert(self.private_tabs@[a] == before_push[a]);
                        assert(self.private_tabs@[b] == tab);
                    }
                }
            }
        } else {
            let ghost closed0 = self.closed_channel_tabs@;
            let ghost open0 = self.channel_tabs@;
            let found_closed = find_channel(&self.closed_channel_tabs, &key);
            let tab = match found_closed {
                Some(j) => {
                    proof {
                        lemma_channel_remove_unique(closed0, j as int);
                    }
                    self.closed_channel_tabs.remove(j)
                },
                None => ChannelTab {
                    joined: false,
                    name: key.clone(),
                    id: key.clone(),
                    messages: Log::new(self.settings.buffer_size),
                },
            };
            let found_open = find_channel(&self.channel_tabs, &key);
            match found_open {
                Some(k) => {
                    proof {
                        lemma_channel_remove_unique(open0, k as int);
                    }
                    self.channel_tabs.remove(k);
                },
                None => {},
            }
            let ghost before_push = self.channel_tabs@;
            self.channel_tabs.push(tab);
            self.tab_order.push(TabType::Channel(key));
            proof {
                assert(self.channel_tabs@.drop_last() =~= before_push);
                assert forall|a: int, b: int|
                    0 <= a < b < self.channel_tabs@.len() implies self.channel_tabs@[a].id@
                    != self.channel_tabs@[b].id@ by {
                    if b < before_push.len() {
                        assert(self.channel_tabs@[a] == before_push[a]);
                        assert(self.channel_tabs@[b] == before_push[b]);
                    } else {
                        assert(self.channel_tabs@[a] == before_push[a]);
                        assert(self.channel_tabs@[b] == tab);
                    }
                }
            }
        }
        self.current_tab = self.tab_order.len() as u16;
        proof {
            assert(self.tab_order@.take(old(self).tab_order@.len() as int) =~= old(
                self,
            ).tab_order@);
        }
    }
}

} // verus!
