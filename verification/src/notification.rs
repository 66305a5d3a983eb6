use vstd::prelude::*;

use crate::definitions::CommonFieldsView;
use crate::definitions::V1CommonValueFields;
use crate::navigation::opt_view;

verus! {

/// The payload of a raised notification.
#[derive(PartialEq, Debug, Clone)]
pub struct V1NotificationValue {
    pub method: Vec<String>,
    pub state: String,
    pub message: String,
}

/// Mathematical model of a notification payload.
#[verifier::ext_equal]
pub struct NotificationValueView {
    pub method: Seq<Seq<char>>,
    pub state: Seq<char>,
    pub message: Seq<char>,
}

impl View for V1NotificationValue {
    type V = NotificationValueView;

    open spec fn view(&self) -> NotificationValueView {
        NotificationValueView {
            method: self.method@.map_values(|m: String| m@),
            state: self.state@,
            message: self.message@,
        }
    }
}

impl V1NotificationValue {
    pub fn builder() -> (r: V1NotificationValueBuilder)
        ensures
            r.method@ == Seq::<String>::empty(),
            r.state@ == Seq::<char>::empty(),
            r.message@ == Seq::<char>::empty(),
    {
        V1NotificationValueBuilder {
            method: Vec::new(),
            state: String::new(),
            message: String::new(),
        }
    }
}

pub struct V1NotificationValueBuilder {
    pub method: Vec<String>,
    pub state: String,
    pub message: String,
}

impl V1NotificationValueBuilder {
    /// Adds one announcement method to the list.
    pub fn method(self, value: String) -> (r: V1NotificationValueBuilder)
        ensures
            r.method@ == self.method@.push(value),
            r.state == self.state,
            r.message == self.message,
    {
        let mut method = self.method;
        method.push(value);
        V1NotificationValueBuilder { method, state: self.state, message: self.message }
    }

    pub fn state(self, value: String) -> (r: V1NotificationValueBuilder)
        ensures
            r == (V1NotificationValueBuilder { state: value, ..self }),
    {
        V1NotificationValueBuilder { state: value, ..self }
    }

    pub fn message(self, value: String) -> (r: V1NotificationValueBuilder)
        ensures
            r == (V1NotificationValueBuilder { message: value, ..self }),
    {
        V1NotificationValueBuilder { message: value, ..self }
    }

    pub fn build(self) -> (r: V1NotificationValue)
        ensures
            r == (V1NotificationValue {
                method: self.method,
                state: self.state,
                message: self.message,
            }),
    {
        V1NotificationValue { method: self.method, state: self.state, message: self.message }
    }
}

/// A node of the notification tree: perhaps a value of its own, and named
/// sub-categories.  The children are held as a list of pairs; the first
/// binding for a name is the one that counts.
#[derive(Debug)]
pub struct V1Notification {
    pub value: Option<V1NotificationValue>,
    pub common_value_fields: Option<V1CommonValueFields>,
    pub childs: Vec<(String, V1Notification)>,
}

/// Mathematical model of a notification node.
#[verifier::ext_equal]
pub struct NotificationView {
    pub value: Option<NotificationValueView>,
    pub common_value_fields: Option<CommonFieldsView>,
    pub childs: Map<Seq<char>, NotificationView>,
}

/// Model of a notification node; sub-categories become a map in which the
/// first binding of each name wins.
pub open spec fn notif_view(n: V1Notification) -> NotificationView
    decreases n,
{
    NotificationView {
        value: opt_view(n.value),
        common_value_fields: opt_view(n.common_value_fields),
        childs: notif_childs_view(n.childs@),
    }
}

pub open spec fn notif_childs_view(s: Seq<(String, V1Notification)>) -> Map<
    Seq<char>,
    NotificationView,
>
    decreases s,
{
    if s.len() == 0 {
        Map::empty()
    } else {
        notif_childs_view(s.drop_first()).insert(s[0].0@, notif_view(s[0].1))
    }
}

impl View for V1Notification {
    type V = NotificationView;

    open spec fn view(&self) -> NotificationView {
        notif_view(*self)
    }
}

impl NotificationView {
    /// The model of a notification node with nothing in it.
    pub open spec fn empty() -> NotificationView {
        NotificationView {
            value: None,
            common_value_fields: None,
            childs: Map::empty(),
        }
    }
}

impl Default for V1Notification {
    fn default() -> (r: Self)
        ensures
            r@ == NotificationView::empty(),
    {
        let r = V1Notification { value: None, common_value_fields: None, childs: Vec::new() };
        proof {
            assert(r@.childs =~= Map::<Seq<char>, NotificationView>::empty());
            assert(r@ =~= NotificationView::empty());
        }
        r
    }
}

impl V1Notification {
    pub fn builder() -> (r: V1NotificationBuilder)
        ensures
            r.value is None,
            r.common_value_fields is None,
            r.childs@ == Seq::<(String, V1Notification)>::empty(),
    {
        V1NotificationBuilder { value: None, common_value_fields: None, childs: Vec::new() }
    }
}

pub struct V1NotificationBuilder {
    pub value: Option<V1NotificationValue>,
    pub common_value_fields: Option<V1CommonValueFields>,
    pub childs: Vec<(String, V1Notification)>,
}

impl V1NotificationBuilder {
    pub fn value(self, value: V1NotificationValue) -> (r: V1NotificationBuilder)
        ensures
            r.value == Some(value),
            r.common_value_fields == self.common_value_fields,
            r.childs == self.childs,
    {
        V1NotificationBuilder {
            value: Some(value),
            common_value_fields: self.common_value_fields,
            childs: self.childs,
        }
    }

    pub fn common_value_fields(self, value: V1CommonValueFields) -> (r: V1NotificationBuilder)
        ensures
            r.value == self.value,
            r.common_value_fields == Some(value),
            r.childs == self.childs,
    {
        V1NotificationBuilder {
            value: self.value,
            common_value_fields: Some(value),
            childs: self.childs,
        }
    }

    /// Adds a named sub-category.
    pub fn add_child(self, key: String, value: V1Notification) -> (r: V1NotificationBuilder)
        ensures
            r.value == self.value,
            r.common_value_fields == self.common_value_fields,
            r.childs@ == self.childs@.push((key, value)),
    {
        let mut childs = self.childs;
        childs.push((key, value));
        V1NotificationBuilder {
            value: self.value,
            common_value_fields: self.common_value_fields,
            childs,
        }
    }

    pub fn build(self) -> (r: V1Notification)
        ensures
            r == (V1Notification {
                value: self.value,
                common_value_fields: self.common_value_fields,
                childs: self.childs,
            }),
    {
        V1Notification {
            value: self.value,
            common_value_fields: self.common_value_fields,
            childs: self.childs,
        }
    }
}

} // verus!
