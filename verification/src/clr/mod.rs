//! Values that cross the border to the managed runtime of the game.

use vstd::prelude::*;

use crate::single::Single;
use crate::text;

pub mod hunt;
pub mod lookup;

verus! {

/// A value read from the game or handed to it. A managed object stays on the
/// other side; here only its presence is known.
#[derive(Debug)]
pub enum Var {
    Null,
    Int(i32),
    Float(Single),
    Bool(bool),
    Byte(u8),
    Text(String),
    Object,
    /// Any other kind, none of whose contents is ever asked for.
    Other,
}

/// The model of [`Var`].
pub enum VarView {
    Null,
    Int(i32),
    Float(Single),
    Bool(bool),
    Byte(u8),
    Text(Seq<char>),
    Object,
    Other,
}

impl View for Var {
    type V = VarView;

    open spec fn view(&self) -> VarView {
        match *self {
            Var::Null => VarView::Null,
            Var::Int(x) => VarView::Int(x),
            Var::Float(x) => VarView::Float(x),
            Var::Bool(x) => VarView::Bool(x),
            Var::Byte(x) => VarView::Byte(x),
            Var::Text(s) => VarView::Text(s@),
            Var::Object => VarView::Object,
            Var::Other => VarView::Other,
        }
    }
}

impl VarView {
    /// The value as a number: a single loses its fraction, a truth value is 0 or 1.
    pub open spec fn number(self) -> Option<i32> {
        match self {
            VarView::Int(x) => Some(x),
            VarView::Float(x) => Some(x.clamped() as i32),
            VarView::Bool(b) => Some(
                if b {
                    1
                } else {
                    0
                },
            ),
            _ => None,
        }
    }

    /// The value as a single; a number goes to the nearest one.
    pub open spec fn float(self) -> Option<Single> {
        match self {
            VarView::Float(x) => Some(x),
            VarView::Int(x) => Some(crate::single::nearest(x as int)),
            _ => None,
        }
    }

    /// The value as a truth value; a number is true unless it is zero.
    pub open spec fn truth(self) -> Option<bool> {
        match self {
            VarView::Bool(b) => Some(b),
            VarView::Int(x) => Some(x != 0),
            _ => None,
        }
    }

    /// The value as a text.
    pub open spec fn string(self) -> Option<Seq<char>> {
        match self {
            VarView::Text(s) => Some(s),
            _ => None,
        }
    }

    /// [`VarView::number`] with a fallback.
    pub open spec fn int_or(self, fallback: i32) -> i32 {
        match self.number() {
            Some(x) => x,
            None => fallback,
        }
    }

    /// [`VarView::truth`] with a fallback.
    pub open spec fn truth_or(self, fallback: bool) -> bool {
        match self.truth() {
            Some(b) => b,
            None => fallback,
        }
    }

    /// [`VarView::float`] with zero as the fallback.
    pub open spec fn float_or_zero(self) -> Single {
        match self.float() {
            Some(x) => x,
            None => Single { bits: 0 },
        }
    }
}

/// The model of a list of values.
pub open spec fn views(vars: Seq<Var>) -> Seq<VarView> {
    vars.map_values(|v: Var| v@)
}

/// The model of a value that may not have been readable.
pub open spec fn reading(v: Option<&Var>) -> Option<VarView> {
    match v {
        Some(v) => Some(v@),
        None => None,
    }
}

impl Var {
    pub fn null() -> (r: Var)
        ensures
            r@ == VarView::Null,
    {
        Var::Null
    }

    pub fn integer(x: i32) -> (r: Var)
        ensures
            r@ == VarView::Int(x),
    {
        Var::Int(x)
    }

    pub fn float(x: Single) -> (r: Var)
        ensures
            r@ == VarView::Float(x),
    {
        Var::Float(x)
    }

    pub fn boolean(x: bool) -> (r: Var)
        ensures
            r@ == VarView::Bool(x),
    {
        Var::Bool(x)
    }

    pub fn byte(x: u8) -> (r: Var)
        ensures
            r@ == VarView::Byte(x),
    {
        Var::Byte(x)
    }

    pub fn text(s: &str) -> (r: Var)
        ensures
            r@ == VarView::Text(s@),
    {
        Var::Text(text::owned(s))
    }

    pub fn is_null(&self) -> (r: bool)
        ensures
            r == (self@ is Null),
    {
        match self {
            Var::Null => true,
            _ => false,
        }
    }

    pub fn as_int(&self) -> (r: Option<i32>)
        ensures
            r == self@.number(),
    {
        match self {
            Var::Int(x) => Some(*x),
            Var::Float(x) => Some(x.truncated()),
            Var::Bool(b) => Some(
                if *b {
                    1
                } else {
                    0
                },
            ),
            _ => None,
        }
    }

    pub fn as_float(&self) -> (r: Option<Single>)
        ensures
            r == self@.float(),
    {
        match self {
            Var::Float(x) => Some(*x),
            Var::Int(x) => Some(Single::from_int(*x)),
            _ => None,
        }
    }

    pub fn as_bool(&self) -> (r: Option<bool>)
        ensures
            r == self@.truth(),
    {
        match self {
            Var::Bool(b) => Some(*b),
            Var::Int(x) => Some(*x != 0),
            _ => None,
        }
    }

    pub fn as_string(&self) -> (r: Option<String>)
        ensures
            match r {
                Some(s) => self@.string() == Some(s@),
                None => self@.string() is None,
            },
    {
        match self {
            Var::Text(s) => Some(s.clone()),
            _ => None,
        }
    }

    /// The value as a number, or the fallback where it is none.
    pub fn int_or(&self, fallback: i32) -> (r: i32)
        ensures
            r == self@.int_or(fallback),
    {
        match self.as_int() {
            Some(x) => x,
            None => fallback,
        }
    }

    /// The value as a truth value, or the fallback where it is none.
    pub fn bool_or(&self, fallback: bool) -> (r: bool)
        ensures
            r == self@.truth_or(fallback),
    {
        match self.as_bool() {
            Some(b) => b,
            None => fallback,
        }
    }

    /// The value as a single, or zero where it is none.
    pub fn float_or_zero(&self) -> (r: Single)
        ensures
            r == self@.float_or_zero(),
    {
        match self.as_float() {
            Some(x) => x,
            None => Single { bits: 0 },
        }
    }
}

// ---------------------------------------------------------------------------
// Late binding
// ---------------------------------------------------------------------------

/// A call by name. A [`Var::Object`] among the arguments stands for the object on
/// whose behalf the call is made.
#[derive(Debug)]
pub struct Call {
    pub name: &'static str,
    pub args: Vec<Var>,
}

/// The model of [`Call`].
pub struct CallView {
    pub name: Seq<char>,
    pub args: Seq<VarView>,
}

impl View for Call {
    type V = CallView;

    open spec fn view(&self) -> CallView {
        CallView { name: self.name@, args: views(self.args@) }
    }
}

/// The arguments of a call in the order in which late binding wants them: the last
/// one first.
pub fn call_order(args: Vec<Var>) -> (r: Vec<Var>)
    ensures
        r@ == args@.reverse(),
{
    let mut left = args;
    let mut r: Vec<Var> = Vec::new();
    while left.len() > 0
        invariant
            r@ + left@.reverse() =~= args@.reverse(),
        decreases left.len(),
    {
        if let Some(last) = left.pop() {
            r.push(last);
        }
    }
    assert(left@.reverse() =~= Seq::empty());
    assert(r@ =~= args@.reverse());
    r
}

/// Reads a field that belongs to its type.
pub fn get_static() -> (r: Call)
    ensures
        r@ == (CallView { name: "GetValue"@, args: seq![VarView::Null] }),
{
    let r = Call { name: "GetValue", args: vec![Var::Null] };
    assert(r@.args =~= seq![VarView::Null]);
    r
}

/// Reads a field of an object.
pub fn get() -> (r: Call)
    ensures
        r@ == (CallView { name: "GetValue"@, args: seq![VarView::Object] }),
{
    let r = Call { name: "GetValue", args: vec![Var::Object] };
    assert(r@.args =~= seq![VarView::Object]);
    r
}

/// Writes a field that belongs to its type.
pub fn set_static(value: Var) -> (r: Call)
    ensures
        r@ == (CallView { name: "SetValue"@, args: seq![VarView::Null, value@] }),
{
    let r = Call { name: "SetValue", args: vec![Var::Null, value] };
    assert(r@.args =~= seq![VarView::Null, value@]);
    r
}

/// Writes a field of an object.
pub fn set(value: Var) -> (r: Call)
    ensures
        r@ == (CallView { name: "SetValue"@, args: seq![VarView::Object, value@] }),
{
    let r = Call { name: "SetValue", args: vec![Var::Object, value] };
    assert(r@.args =~= seq![VarView::Object, value@]);
    r
}

/// Reads an element of an array.
pub fn array_get(index: i32) -> (r: Call)
    ensures
        r@ == (CallView { name: "GetValue"@, args: seq![VarView::Int(index)] }),
{
    let r = Call { name: "GetValue", args: vec![Var::Int(index)] };
    assert(r@.args =~= seq![VarView::Int(index)]);
    r
}

/// The length of an array, out of what `Length` replied; nothing where the reply is
/// no number.
pub fn array_len(reply: &Var) -> (r: Option<i32>)
    ensures
        r == reply@.number(),
{
    reply.as_int()
}

/// Asks an assembly for a type.
pub fn get_type(full_name: &str) -> (r: Call)
    ensures
        r@ == (CallView { name: "GetType"@, args: seq![VarView::Text(full_name@)] }),
{
    let r = Call { name: "GetType", args: vec![Var::text(full_name)] };
    assert(r@.args =~= seq![VarView::Text(full_name@)]);
    r
}

/// Asks a type for a public field.
pub fn resolve(name: &str) -> (r: Call)
    ensures
        r@ == (CallView { name: "GetField"@, args: seq![VarView::Text(name@)] }),
{
    let r = Call { name: "GetField", args: vec![Var::text(name)] };
    assert(r@.args =~= seq![VarView::Text(name@)]);
    r
}

/// Asks the domain to load an assembly.
pub fn load(simple_name: &str) -> (r: Call)
    ensures
        r@ == (CallView { name: "Load"@, args: seq![VarView::Text(simple_name@)] }),
{
    let r = Call { name: "Load", args: vec![Var::text(simple_name)] };
    assert(r@.args =~= seq![VarView::Text(simple_name@)]);
    r
}

/// How many characters of a version string are worth reading.
pub open spec fn worth_reading(len: u32) -> int {
    if len == 0 {
        0
    } else if len <= 64 {
        len - 1
    } else {
        63
    }
}

/// How many characters of a version string of at most 64 are worth reading when the
/// runtime says that it wrote `len` of them: the closing zero is none of them.
pub fn version_length(len: u32) -> (r: usize)
    ensures
        r == if len == 0 {
            0int
        } else if len <= 64 {
            len - 1
        } else {
            63
        },
        r == worth_reading(len),
{
    let n: usize = if len <= 64 {
        len as usize
    } else {
        64
    };
    if n == 0 {
        0
    } else {
        n - 1
    }
}

} // verus!
