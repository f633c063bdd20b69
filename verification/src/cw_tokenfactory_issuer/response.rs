//! What an operation hands back to the chain, and what the chain hands in.

use crate::chain::Attribute;
use crate::chain::ReplyOn;
use vstd::prelude::*;

verus! {

/// One unit in which a denom is displayed.
#[derive(Clone, Debug, PartialEq, Eq)]
pub struct DenomUnit {
    pub denom: String,
    pub exponent: u32,
    pub aliases: Vec<String>,
}

/// The bank's description of a denom. The issuer hands it on unread.
#[derive(Clone, Debug, PartialEq, Eq)]
pub struct Metadata {
    pub description: Option<String>,
    pub denom_units: Vec<DenomUnit>,
    pub base: Option<String>,
    pub display: Option<String>,
    pub name: Option<String>,
    pub symbol: Option<String>,
}

/// What the issuer asks of the chain's token factory.
#[derive(Clone, Debug, PartialEq, Eq)]
pub enum TokenFactoryMsg {
    /// Create the denom `factory/{sender}/{subdenom}`.
    CreateDenom { sender: String, subdenom: String },
    /// Have `cosmwasm_address` asked before every transfer of `denom`.
    SetBeforeSendHook { sender: String, denom: String, cosmwasm_address: String },
    MintTokens { denom: String, amount: u128, mint_to_address: String },
    BurnTokens { denom: String, amount: u128, burn_from_address: String },
    ForceTransfer { denom: String, amount: u128, from_address: String, to_address: String },
    ChangeAdmin { denom: String, new_admin_address: String },
    SetMetadata { denom: String, metadata: Metadata },
}

/// A [`TokenFactoryMsg`] with its addresses and denoms as plain values.
pub enum TokenFactoryMsgView {
    CreateDenom { sender: Seq<char>, subdenom: Seq<char> },
    SetBeforeSendHook { sender: Seq<char>, denom: Seq<char>, cosmwasm_address: Seq<char> },
    MintTokens { denom: Seq<char>, amount: u128, mint_to_address: Seq<char> },
    BurnTokens { denom: Seq<char>, amount: u128, burn_from_address: Seq<char> },
    ForceTransfer {
        denom: Seq<char>,
        amount: u128,
        from_address: Seq<char>,
        to_address: Seq<char>,
    },
    ChangeAdmin { denom: Seq<char>, new_admin_address: Seq<char> },
    SetMetadata { denom: Seq<char>, metadata: Metadata },
}

impl View for TokenFactoryMsg {
    type V = TokenFactoryMsgView;

    open spec fn view(&self) -> TokenFactoryMsgView {
        match *self {
            TokenFactoryMsg::CreateDenom { sender, subdenom } => TokenFactoryMsgView::CreateDenom {
                sender: sender@,
                subdenom: subdenom@,
            },
            TokenFactoryMsg::SetBeforeSendHook { sender, denom, cosmwasm_address } =>
                TokenFactoryMsgView::SetBeforeSendHook {
                    sender: sender@,
                    denom: denom@,
                    cosmwasm_address: cosmwasm_address@,
                },
            TokenFactoryMsg::MintTokens { denom, amount, mint_to_address } =>
                TokenFactoryMsgView::MintTokens {
                    denom: denom@,
                    amount,
                    mint_to_address: mint_to_address@,
                },
            TokenFactoryMsg::BurnTokens { denom, amount, burn_from_address } =>
                TokenFactoryMsgView::BurnTokens {
                    denom: denom@,
                    amount,
                    burn_from_address: burn_from_address@,
                },
            TokenFactoryMsg::ForceTransfer { denom, amount, from_address, to_address } =>
                TokenFactoryMsgView::ForceTransfer {
                    denom: denom@,
                    amount,
                    from_address: from_address@,
                    to_address: to_address@,
                },
            TokenFactoryMsg::ChangeAdmin { denom, new_admin_address } =>
                TokenFactoryMsgView::ChangeAdmin {
                    denom: denom@,
                    new_admin_address: new_admin_address@,
                },
            TokenFactoryMsg::SetMetadata { denom, metadata } => TokenFactoryMsgView::SetMetadata {
                denom: denom@,
                metadata,
            },
        }
    }
}

/// A message for the chain, with the id under which its outcome comes back.
#[derive(Clone, Debug, PartialEq, Eq)]
pub struct SubMsg {
    pub id: u64,
    pub msg: TokenFactoryMsg,
    pub reply_on: ReplyOn,
}

/// A [`SubMsg`] over the message's plain value.
pub struct SubMsgView {
    pub id: u64,
    pub msg: TokenFactoryMsgView,
    pub reply_on: ReplyOn,
}

impl View for SubMsg {
    type V = SubMsgView;

    open spec fn view(&self) -> SubMsgView {
        SubMsgView { id: self.id, msg: self.msg@, reply_on: self.reply_on }
    }
}

/// The outcome of an operation that went through: messages for the chain, in
/// the order in which it is to carry them out, and attributes to record.
#[derive(Clone, Debug, PartialEq, Eq)]
pub struct Response {
    pub messages: Vec<SubMsg>,
    pub attributes: Vec<Attribute>,
}

/// A [`Response`] as plain values.
pub struct ResponseView {
    pub messages: Seq<SubMsgView>,
    pub attributes: Seq<(Seq<char>, Seq<char>)>,
}

impl ResponseView {
    /// The outcome without messages and attributes.
    pub open spec fn empty() -> ResponseView {
        ResponseView { messages: Seq::empty(), attributes: Seq::empty() }
    }

    /// This outcome with one more attribute.
    pub open spec fn attr(self, key: Seq<char>, value: Seq<char>) -> ResponseView {
        ResponseView { attributes: self.attributes.push((key, value)), ..self }
    }

    /// This outcome with one more message.
    pub open spec fn msg(self, id: u64, msg: TokenFactoryMsgView, reply_on: ReplyOn) -> ResponseView {
        ResponseView { messages: self.messages.push(SubMsgView { id, msg, reply_on }), ..self }
    }
}

impl View for Response {
    type V = ResponseView;

    open spec fn view(&self) -> ResponseView {
        ResponseView {
            messages: Seq::new(self.messages@.len(), |i: int| self.messages@[i]@),
            attributes: Seq::new(self.attributes@.len(), |i: int| self.attributes@[i]@),
        }
    }
}

impl Response {
    /// The outcome without messages and attributes.
    pub fn new() -> (r: Response)
        ensures
            r@ == ResponseView::empty(),
    {
        let r = Response { messages: Vec::new(), attributes: Vec::new() };
        assert(r@.messages =~= Seq::empty() && r@.attributes =~= Seq::empty());
        r
    }

    /// Adds an attribute after those that are there.
    pub fn add_attribute(self, key: &str, value: &str) -> (r: Response)
        ensures
            r@ == self@.attr(key@, value@),
    {
        let mut r = self;
        r.attributes.push(Attribute { key: key.to_owned(), value: value.to_owned() });
        assert(r@.attributes =~= self@.attributes.push((key@, value@)));
        r
    }

    /// Adds a message whose outcome the issuer does not ask for.
    pub fn add_message(self, msg: TokenFactoryMsg) -> (r: Response)
        ensures
            r@ == self@.msg(0, msg@, ReplyOn::Never),
    {
        self.add_submessage(SubMsg { id: 0, msg, reply_on: ReplyOn::Never })
    }

    /// Adds a message after those that are there.
    pub fn add_submessage(self, msg: SubMsg) -> (r: Response)
        ensures
            r@ == self@.msg(msg.id, msg.msg@, msg.reply_on),
    {
        let mut r = self;
        r.messages.push(msg);
        assert(r@.messages =~= self@.messages.push(msg@));
        r
    }
}

} // verus!
