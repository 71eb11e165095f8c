//! The conversation history of a session: what was said and done, in order.

use vstd::prelude::*;

verus! {

/// One entry of the conversation.
#[derive(Debug)]
pub enum ConversationItem {
    UserMessage { text: String },
    AssistantMessage { text: String },
    ToolCall { name: String, arguments: String },
    ToolResult { name: String, output: String, success: bool },
}

/// A conversation entry with its texts taken as character sequences.
pub enum ItemView {
    UserMessage { text: Seq<char> },
    AssistantMessage { text: Seq<char> },
    ToolCall { name: Seq<char>, arguments: Seq<char> },
    ToolResult { name: Seq<char>, output: Seq<char>, success: bool },
}

impl View for ConversationItem {
    type V = ItemView;

    open spec fn view(&self) -> ItemView {
        match self {
            ConversationItem::UserMessage { text } => ItemView::UserMessage { text: text@ },
            ConversationItem::AssistantMessage { text } => ItemView::AssistantMessage {
                text: text@,
            },
            ConversationItem::ToolCall { name, arguments } => ItemView::ToolCall {
                name: name@,
                arguments: arguments@,
            },
            ConversationItem::ToolResult { name, output, success } => ItemView::ToolResult {
                name: name@,
                output: output@,
                success: *success,
            },
        }
    }
}

/// The views of a list of entries.
pub open spec fn view_items(items: Seq<ConversationItem>) -> Seq<ItemView> {
    items.map_values(|item: ConversationItem| item@)
}

/// The history: a list of entries that only grows.
pub struct ConversationHistory {
    items: Vec<ConversationItem>,
}

impl View for ConversationHistory {
    type V = Seq<ItemView>;

    closed spec fn view(&self) -> Seq<ItemView> {
        view_items(self.items@)
    }
}

impl ConversationHistory {
    /// An empty history.
    pub fn new() -> (r: Self)
        ensures
            r@ == Seq::<ItemView>::empty(),
    {
        let r = ConversationHistory { items: Vec::new() };
        assert(r@ =~= Seq::<ItemView>::empty());
        r
    }

    /// Appends `item` at the end.
    pub fn push(&mut self, item: ConversationItem)
        ensures
            final(self)@ == old(self)@.push(item@),
    {
        self.items.push(item);
        assert(view_items(self.items@) =~= view_items(old(self).items@).push(item@));
    }

    /// The entries, oldest first.
    pub fn items(&self) -> (r: &[ConversationItem])
        ensures
            view_items(r@) == self@,
    {
        self.items.as_slice()
    }

    /// The number of entries.
    pub fn len(&self) -> (r: usize)
        ensures
            r == self@.len(),
    {
        self.items.len()
    }
}

} // verus!
