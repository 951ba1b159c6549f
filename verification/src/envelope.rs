//! The message unit that travels between the two ends of a connection.
use vstd::prelude::*;
use vstd::std_specs::cmp::PartialEqSpecImpl;

verus! {

/// The kind of a message: what the receiving side is asked to do with it.
#[derive(Clone, Copy, Debug, PartialEq, Eq, Structural)]
pub enum MessageType {
    Default,
    PingRequest,
    PingResponse,
    Request,
    Response,
}

/// What a message is, as plain values.
pub struct MessageView {
    pub message_type: MessageType,
    pub correlation_id: Seq<char>,
    pub content: Seq<u8>,
}

/// A message: a type tag, the identifier that ties a reply to its request,
/// and a payload that this crate never looks into.
#[derive(Debug)]
pub struct Message {
    message_type: MessageType,
    correlation_id: String,
    content: Vec<u8>,
}

impl View for Message {
    type V = MessageView;

    open spec fn view(&self) -> MessageView {
        MessageView {
            message_type: self.spec_message_type(),
            correlation_id: self.spec_correlation_id(),
            content: self.spec_content(),
        }
    }
}

impl Message {
    pub closed spec fn spec_message_type(&self) -> MessageType {
        self.message_type
    }

    pub closed spec fn spec_correlation_id(&self) -> Seq<char> {
        self.correlation_id@
    }

    pub closed spec fn spec_content(&self) -> Seq<u8> {
        self.content@
    }

    /// The empty message: default tag, no identifier, no payload.
    pub fn new() -> (m: Message)
        ensures
            m@ == (MessageView {
                message_type: MessageType::Default,
                correlation_id: Seq::<char>::empty(),
                content: Seq::<u8>::empty(),
            }),
    {
        Message { message_type: MessageType::Default, correlation_id: String::new(), content: Vec::new() }
    }

    pub fn set_message_type(&mut self, message_type: MessageType)
        ensures
            final(self)@ == (MessageView { message_type, ..old(self)@ }),
    {
        self.message_type = message_type;
    }

    pub fn set_correlation_id(&mut self, correlation_id: String)
        ensures
            final(self)@ == (MessageView { correlation_id: correlation_id@, ..old(self)@ }),
    {
        self.correlation_id = correlation_id;
    }

    pub fn set_content(&mut self, content: Vec<u8>)
        ensures
            final(self)@ == (MessageView { content: content@, ..old(self)@ }),
    {
        self.content = content;
    }

    pub fn get_message_type(&self) -> (t: MessageType)
        ensures
            t == self@.message_type,
    {
        self.message_type
    }

    pub fn get_correlation_id(&self) -> (id: &str)
        ensures
            id@ == self@.correlation_id,
    {
        self.correlation_id.as_str()
    }

    pub fn get_content(&self) -> (content: &[u8])
        ensures
            content@ == self@.content,
    {
        self.content.as_slice()
    }
}

impl Clone for Message {
    fn clone(&self) -> (m: Message)
        ensures
            m@ == self@,
    {
        Message {
            message_type: self.message_type,
            correlation_id: self.correlation_id.clone(),
            content: self.content.clone(),
        }
    }
}

impl PartialEq for Message {
    fn eq(&self, other: &Message) -> (b: bool) {
        let same_type = self.message_type == other.message_type;
        let same_id = self.correlation_id == other.correlation_id;
        let same_content = self.content == other.content;
        proof {
            assert(same_content == (self.content@ =~= other.content@));
            assert(same_id == (self.correlation_id@ =~= other.correlation_id@));
        }
        same_type && same_id && same_content
    }
}

/// Two messages are equal when tag, identifier and payload are.
impl PartialEqSpecImpl for Message {
    open spec fn obeys_eq_spec() -> bool {
        true
    }

    open spec fn eq_spec(&self, other: &Message) -> bool {
        self@ == other@
    }
}

} // verus!
