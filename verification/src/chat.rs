//! Chat data: what a poll brings, and the messages that are shown.
//!
//! A poll response lists chat items. Each item maps user names to what that
//! user said; within one item a user name occurs once. Flattening a response
//! walks the items first to last, and each item's entries in the order in
//! which the item holds them, and yields one message per entry.

use vstd::prelude::*;

verus! {

/// What one user said, as the server reports it.
#[derive(Debug, PartialEq, Eq)]
pub struct UserInfo {
    /// The server's identifier of the message.
    pub id: String,
    /// The text of the message.
    pub text: String,
}

/// The mathematical value of a [`UserInfo`].
pub struct UserInfoView {
    pub id: Seq<char>,
    pub text: Seq<char>,
}

impl View for UserInfo {
    type V = UserInfoView;

    open spec fn view(&self) -> UserInfoView {
        UserInfoView { id: self.id@, text: self.text@ }
    }
}

impl Clone for UserInfo {
    fn clone(&self) -> (copy: UserInfo)
        ensures
            copy@ == self@,
    {
        UserInfo { id: self.id.clone(), text: self.text.clone() }
    }
}

/// One line of chat: who said it, and what.
#[derive(Debug, PartialEq, Eq)]
pub struct ChatMessage {
    /// The user's name.
    pub username: String,
    /// What the user said.
    pub text: String,
}

/// The mathematical value of a [`ChatMessage`].
pub struct ChatMessageView {
    pub username: Seq<char>,
    pub text: Seq<char>,
}

impl View for ChatMessage {
    type V = ChatMessageView;

    open spec fn view(&self) -> ChatMessageView {
        ChatMessageView { username: self.username@, text: self.text@ }
    }
}

impl Clone for ChatMessage {
    fn clone(&self) -> (copy: ChatMessage)
        ensures
            copy@ == self@,
    {
        ChatMessage { username: self.username.clone(), text: self.text.clone() }
    }
}

/// The values of a sequence of messages, in the same order.
pub open spec fn messages_view(messages: Seq<ChatMessage>) -> Seq<ChatMessageView> {
    messages.map_values(|m: ChatMessage| m@)
}

/// The mathematical value of a [`ChatItem`]: its entries, user name first,
/// in the order in which the item holds them.
pub type ChatItemView = Seq<(Seq<char>, UserInfoView)>;

/// Whether no user name occurs twice in `entries`.
pub open spec fn distinct_usernames(entries: ChatItemView) -> bool {
    forall|i: int, j: int|
        0 <= i < j < entries.len() ==> (#[trigger] entries[i]).0 != (#[trigger] entries[j]).0
}

/// Whether `entries` holds an entry for `username`.
pub open spec fn has_username(entries: ChatItemView, username: Seq<char>) -> bool {
    exists|i: int| 0 <= i < entries.len() && (#[trigger] entries[i]).0 == username
}

/// The place of the entry for `username` in `entries`, where there is one.
pub open spec fn username_index(entries: ChatItemView, username: Seq<char>) -> int {
    choose|i: int| 0 <= i < entries.len() && (#[trigger] entries[i]).0 == username
}

/// `entries` after `username` has been set to `info`: an entry that was
/// there keeps its place and gets the new value, a new one goes to the end.
pub open spec fn entries_with(
    entries: ChatItemView,
    username: Seq<char>,
    info: UserInfoView,
) -> ChatItemView {
    if has_username(entries, username) {
        entries.update(username_index(entries, username), (username, info))
    } else {
        entries.push((username, info))
    }
}

/// One element of a poll response: a map from user name to message, kept in
/// a fixed order. No user name occurs twice.
#[derive(Debug, PartialEq, Eq)]
pub struct ChatItem {
    entries: Vec<(String, UserInfo)>,
}

impl View for ChatItem {
    type V = ChatItemView;

    closed spec fn view(&self) -> ChatItemView {
        self.entries@.map_values(|e: (String, UserInfo)| (e.0@, e.1@))
    }
}

impl Clone for ChatItem {
    fn clone(&self) -> (copy: ChatItem)
        ensures
            copy@ == self@,
    {
        proof {
            use_type_invariant(self);
        }
        let mut entries: Vec<(String, UserInfo)> = Vec::new();
        let mut i: usize = 0;
        while i < self.entries.len()
            invariant
                i <= self.entries.len(),
                entries@.len() == i,
                forall|k: int|
                    0 <= k < i ==> (#[trigger] entries@[k]).0@ == self.entries@[k].0@
                        && entries@[k].1@ == self.entries@[k].1@,
            decreases self.entries.len() - i,
        {
            entries.push((self.entries[i].0.clone(), self.entries[i].1.clone()));
            i += 1;
        }
        assert(entries@.map_values(|e: (String, UserInfo)| (e.0@, e.1@)) =~= self@);
        ChatItem { entries }
    }
}

impl ChatItem {
    #[verifier::type_invariant]
    spec fn well_formed(self) -> bool {
        distinct_usernames(self@)
    }

    /// An item without entries.
    pub fn new() -> (item: ChatItem)
        ensures
            item@ == Seq::<(Seq<char>, UserInfoView)>::empty(),
    {
        let item = ChatItem { entries: Vec::new() };
        assert(item@ =~= Seq::<(Seq<char>, UserInfoView)>::empty());
        item
    }

    /// The number of entries.
    pub fn len(&self) -> (n: usize)
        ensures
            n == self@.len(),
            distinct_usernames(self@),
    {
        proof {
            use_type_invariant(self);
        }
        self.entries.len()
    }

    /// The place of the entry for `username`, if there is one.
    pub fn find(&self, username: &String) -> (place: Option<usize>)
        ensures
            match place {
                Some(i) => i < self@.len() && self@[i as int].0 == username@,
                None => !has_username(self@, username@),
            },
    {
        let mut i: usize = 0;
        while i < self.entries.len()
            invariant
                i <= self.entries.len(),
                forall|k: int| 0 <= k < i ==> (#[trigger] self@[k]).0 != username@,
            decreases self.entries.len() - i,
        {
            if self.entries[i].0 == *username {
                return Some(i);
            }
            i += 1;
        }
        None
    }

    /// The user name and the message at place `i`.
    pub fn entry(&self, i: usize) -> (entry: (&String, &UserInfo))
        requires
            i < self@.len(),
        ensures
            (entry.0@, entry.1@) == self@[i as int],
    {
        let pair = &self.entries[i];
        (&pair.0, &pair.1)
    }

    /// This item with the message of `username` set to `info`.
    pub fn with_entry(self, username: String, info: UserInfo) -> (item: ChatItem)
        ensures
            item@ == entries_with(self@, username@, info@),
            distinct_usernames(item@),
    {
        proof {
            use_type_invariant(&self);
        }
        let ghost before = self@;
        let place = self.find(&username);
        let mut entries = self.entries;
        match place {
            Some(i) => {
                assert(username_index(before, username@) == i);
                entries.set(i, (username, info));
            },
            None => {
                entries.push((username, info));
            },
        }
        let ghost after = entries@.map_values(|e: (String, UserInfo)| (e.0@, e.1@));
        assert(after =~= entries_with(before, username@, info@));
        assert(distinct_usernames(after)) by {
            assert forall|i: int, j: int| 0 <= i < j < after.len() implies (#[trigger] after[i]).0
                != (#[trigger] after[j]).0 by {
                if j < before.len() {
                    assert(before[i].0 != before[j].0);
                } else {
                    assert(before[i].0 != username@);
                }
            }
        }
        ChatItem { entries }
    }
}

/// Paging data of a poll response. Nothing in the overlay reads it.
#[derive(Clone, Copy, Debug, PartialEq, Eq, Structural)]
pub struct PageInfo {
    /// How many results the server has in all.
    pub total_results: u32,
    /// How many results the server sends per page.
    pub results_per_page: u32,
}

/// One decoded poll response.
#[derive(Clone, Debug, PartialEq, Eq)]
pub struct ChatResponse {
    /// The chat items, oldest first.
    pub live_chat_items: Vec<ChatItem>,
    /// Paging data.
    pub page_info: PageInfo,
    /// The token of the next page.
    pub next_page_token: String,
    /// Whether there is a next page.
    pub has_page: bool,
}

/// The mathematical value of a [`ChatResponse`].
pub struct ChatResponseView {
    pub live_chat_items: Seq<ChatItemView>,
    pub page_info: PageInfo,
    pub next_page_token: Seq<char>,
    pub has_page: bool,
}

impl View for ChatResponse {
    type V = ChatResponseView;

    open spec fn view(&self) -> ChatResponseView {
        ChatResponseView {
            live_chat_items: self.live_chat_items@.map_values(|item: ChatItem| item@),
            page_info: self.page_info,
            next_page_token: self.next_page_token@,
            has_page: self.has_page,
        }
    }
}

/// The message that an entry of a chat item stands for.
pub open spec fn message_of(entry: (Seq<char>, UserInfoView)) -> ChatMessageView {
    ChatMessageView { username: entry.0, text: entry.1.text }
}

/// The messages of one chat item, in the item's order.
pub open spec fn item_messages(item: ChatItemView) -> Seq<ChatMessageView> {
    item.map_values(|entry: (Seq<char>, UserInfoView)| message_of(entry))
}

/// The messages of all `items`: those of the first item, then those of the
/// second, and so on.
pub open spec fn flatten_items(items: Seq<ChatItemView>) -> Seq<ChatMessageView> {
    items.map_values(|item: ChatItemView| item_messages(item)).flatten()
}

/// The number of entries in all `items` together.
pub open spec fn total_entries(items: Seq<ChatItemView>) -> nat
    decreases items.len(),
{
    if items.len() == 0 {
        0
    } else {
        total_entries(items.drop_last()) + items.last().len()
    }
}

impl ChatResponse {
    /// The messages of this response, in the order of the items and, within
    /// an item, of its entries.
    pub fn flatten(&self) -> (messages: Vec<ChatMessage>)
        ensures
            messages_view(messages@) == flatten_items(self@.live_chat_items),
            messages@.len() == total_entries(self@.live_chat_items),
    {
        let ghost items = self@.live_chat_items;
        let mut messages: Vec<ChatMessage> = Vec::new();
        let mut i: usize = 0;
        assert(items.take(0) =~= Seq::<ChatItemView>::empty());
        assert(messages_view(messages@) =~= flatten_items(items.take(0)));
        while i < self.live_chat_items.len()
            invariant
                i <= self.live_chat_items.len(),
                items == self@.live_chat_items,
                items.len() == self.live_chat_items.len(),
                messages_view(messages@) == flatten_items(items.take(i as int)),
            decreases self.live_chat_items.len() - i,
        {
            let item = &self.live_chat_items[i];
            let ghost done = messages_view(messages@);
            assert(item@ == items[i as int]);
            let mut j: usize = 0;
            while j < item.len()
                invariant
                    j <= item@.len(),
                    messages_view(messages@) == done + item_messages(item@.take(j as int)),
                decreases item@.len() - j,
            {
                let (username, info) = item.entry(j);
                let ghost so_far = messages_view(messages@);
                messages.push(ChatMessage { username: username.clone(), text: info.text.clone() });
                assert(messages_view(messages@) =~= so_far.push(message_of(item@[j as int])));
                assert(item_messages(item@.take(j + 1)) =~= item_messages(
                    item@.take(j as int),
                ).push(message_of(item@[j as int])));
                j += 1;
            }
            proof {
                assert(item@.take(j as int) =~= item@);
                lemma_flatten_items_push(items.take(i as int), items[i as int]);
                assert(items.take(i + 1) =~= items.take(i as int).push(items[i as int]));
            }
            i += 1;
        }
        proof {
            assert(items.take(i as int) =~= items);
            lemma_flatten_len(items);
            assert(messages_view(messages@).len() == messages@.len());
        }
        messages
    }
}

/// Flattening one more item appends that item's messages.
pub proof fn lemma_flatten_items_push(items: Seq<ChatItemView>, item: ChatItemView)
    ensures
        flatten_items(items.push(item)) == flatten_items(items) + item_messages(item),
{
    let f = |item: ChatItemView| item_messages(item);
    assert(items.push(item).map_values(f) =~= items.map_values(f).push(f(item)));
    items.map_values(f).lemma_flatten_push(f(item));
}

/// A flattened response has one message for each user name of each item.
pub proof fn lemma_flatten_len(items: Seq<ChatItemView>)
    ensures
        flatten_items(items).len() == total_entries(items),
    decreases items.len(),
{
    if items.len() == 0 {
        assert(items.map_values(|item: ChatItemView| item_messages(item)) =~= Seq::empty());
    } else {
        lemma_flatten_len(items.drop_last());
        lemma_flatten_items_push(items.drop_last(), items.last());
        assert(items.drop_last().push(items.last()) =~= items);
    }
}

/// The messages of a flattened response come in the order of the response:
/// entry `j` of item `i` stands behind all entries of the items before `i`
/// and behind the first `j` entries of item `i`.
pub proof fn lemma_flatten_order(items: Seq<ChatItemView>, i: int, j: int)
    requires
        0 <= i < items.len(),
        0 <= j < items[i].len(),
    ensures
        total_entries(items.take(i)) + j < flatten_items(items).len(),
        flatten_items(items)[total_entries(items.take(i)) + j] == message_of(items[i][j]),
    decreases items.len(),
{
    let front = items.drop_last();
    lemma_flatten_items_push(front, items.last());
    assert(front.push(items.last()) =~= items);
    lemma_flatten_len(front);
    if i == items.len() - 1 {
        assert(items.take(i) =~= front);
    } else {
        lemma_flatten_order(front, i, j);
        assert(front.take(i) =~= items.take(i));
    }
}

} // verus!
