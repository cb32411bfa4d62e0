use vstd::prelude::*;

use crate::text::str_eq;

verus! {

/// A literal value in the configuration document.
#[derive(Debug, Clone, PartialEq)]
pub enum Value {
    Null,
    Bool(bool),
    Int(i128),
    /// A number with a fraction or exponent, as written.
    Decimal(String),
    Str(String),
}

/// A named property of a node: `name=value`.
#[derive(Debug, Clone, PartialEq)]
pub struct Property {
    pub name: String,
    pub value: Value,
}

/// One node of the configuration document: its name, an optional type
/// annotation, positional arguments, named properties and child nodes.
#[derive(Debug)]
pub struct Node {
    pub name: String,
    pub annotation: Option<String>,
    pub arguments: Vec<Value>,
    pub properties: Vec<Property>,
    pub children: Vec<Node>,
}

/// Why a node could not be read as what was asked of it.
#[derive(Debug, Clone, PartialEq)]
pub enum DecodeError {
    /// A node name that the grammar does not know here.
    UnknownNode(String),
    UnexpectedArgument,
    MissingArgument,
    UnexpectedProperty(String),
    UnexpectedChild,
    /// A child node that may appear once appears again.
    DuplicateNode(String),
    /// A value of the wrong kind, or out of range.
    InvalidValue,
}

/// The node has no arguments, properties or children.
pub open spec fn is_bare(n: Node) -> bool {
    n.arguments@.len() == 0 && n.properties@.len() == 0 && n.children@.len() == 0
}

/// Every property of the node is one of the allowed names.
pub open spec fn props_within(n: Node, allowed: Seq<Seq<char>>) -> bool {
    forall|i: int| 0 <= i < n.properties@.len() ==> allowed.contains(#[trigger] n.properties@[i].name@)
}

/// The index of the last property with this name: the one that counts.
pub open spec fn last_prop(props: Seq<Property>, name: Seq<char>) -> Option<int>
    decreases props.len(),
{
    if props.len() == 0 {
        None
    } else if props.last().name@ == name {
        Some(props.len() - 1)
    } else {
        last_prop(props.drop_last(), name)
    }
}

/// A boolean property with a default: `None` where the value is no boolean.
pub open spec fn bool_prop(n: Node, name: Seq<char>, default: bool) -> Option<bool> {
    match last_prop(n.properties@, name) {
        None => Some(default),
        Some(i) => match n.properties@[i].value {
            Value::Bool(b) => Some(b),
            _ => None,
        },
    }
}

/// An optional integer property: `Some(None)` where absent, `None` where the
/// value is no integer in `0..=max`.
pub open spec fn int_prop(n: Node, name: Seq<char>, max: int) -> Option<Option<int>> {
    match last_prop(n.properties@, name) {
        None => Some(None),
        Some(i) => match n.properties@[i].value {
            Value::Int(v) => if 0 <= v <= max {
                Some(Some(v as int))
            } else {
                None
            },
            _ => None,
        },
    }
}

/// The string of a value, if it is one.
pub open spec fn str_of(v: Value) -> Option<Seq<char>> {
    match v {
        Value::Str(s) => Some(s@),
        _ => None,
    }
}

/// The node holds exactly one argument and nothing else but properties.
pub open spec fn one_argument(n: Node) -> bool {
    n.arguments@.len() == 1 && n.children@.len() == 0
}

pub proof fn lemma_last_prop_in_range(props: Seq<Property>, name: Seq<char>)
    ensures
        last_prop(props, name) matches Some(i) ==> 0 <= i < props.len() && props[i].name@ == name,
    decreases props.len(),
{
    if props.len() > 0 {
        lemma_last_prop_in_range(props.drop_last(), name);
    }
}

/// Finds the last property of the node with this name.
pub fn find_prop(n: &Node, name: &str) -> (r: Option<usize>)
    ensures
        r matches Some(i) ==> last_prop(n.properties@, name@) == Some(i as int),
        r is None ==> last_prop(n.properties@, name@) is None,
{
    let mut i: usize = n.properties.len();
    proof {
        assert(n.properties@.subrange(0, i as int) =~= n.properties@);
    }
    while i > 0
        invariant
            i <= n.properties@.len(),
            last_prop(n.properties@, name@) == last_prop(n.properties@.subrange(0, i as int), name@),
        decreases i,
    {
        let ghost pre = n.properties@.subrange(0, i as int);
        if str_eq(n.properties[i - 1].name.as_str(), name) {
            return Some(i - 1);
        }
        proof {
            assert(pre.drop_last() =~= n.properties@.subrange(0, i - 1));
        }
        i -= 1;
    }
    None
}

/// Checks that every property of the node is named `a` or `b`.
pub fn check_props(n: &Node, a: &str, b: &str) -> (r: Result<(), DecodeError>)
    ensures
        r is Ok <==> props_within(*n, seq![a@, b@]),
{
    let mut i: usize = 0;
    while i < n.properties.len()
        invariant
            i <= n.properties@.len(),
            forall|k: int| 0 <= k < i ==> seq![a@, b@].contains(#[trigger] n.properties@[k].name@),
        decreases n.properties@.len() - i,
    {
        let p = &n.properties[i];
        if !str_eq(p.name.as_str(), a) && !str_eq(p.name.as_str(), b) {
            proof {
                assert(!seq![a@, b@].contains(n.properties@[i as int].name@)) by {
                    if seq![a@, b@].contains(n.properties@[i as int].name@) {
                        let j = choose|j: int| 0 <= j < 2 && seq![a@, b@][j] == n.properties@[i as int].name@;
                        assert(j == 0 || j == 1);
                    }
                }
            }
            return Err(DecodeError::UnexpectedProperty(p.name.clone()));
        }
        proof {
            assert(seq![a@, b@][0] == a@);
            assert(seq![a@, b@][1] == b@);
        }
        i += 1;
    }
    Ok(())
}

/// Reads a boolean property, with its default where it is absent.
pub fn get_bool_prop(n: &Node, name: &str, default: bool) -> (r: Result<bool, DecodeError>)
    ensures
        r is Ok <==> bool_prop(*n, name@, default) is Some,
        r matches Ok(b) ==> bool_prop(*n, name@, default) == Some(b),
{
    proof {
        lemma_last_prop_in_range(n.properties@, name@);
    }
    match find_prop(n, name) {
        None => Ok(default),
        Some(i) => match &n.properties[i].value {
            Value::Bool(b) => Ok(*b),
            _ => Err(DecodeError::InvalidValue),
        },
    }
}

/// Reads an optional integer property that must lie in `0..=max`.
pub fn get_int_prop(n: &Node, name: &str, max: u64) -> (r: Result<Option<u64>, DecodeError>)
    ensures
        r is Ok <==> int_prop(*n, name@, max as int) is Some,
        r matches Ok(v) ==> int_prop(*n, name@, max as int) == Some(
            match v {
                Some(x) => Some(x as int),
                None => None::<int>,
            },
        ),
{
    proof {
        lemma_last_prop_in_range(n.properties@, name@);
    }
    match find_prop(n, name) {
        None => Ok(None),
        Some(i) => match &n.properties[i].value {
            Value::Int(v) => {
                if 0 <= *v && *v <= max as i128 {
                    Ok(Some(*v as u64))
                } else {
                    Err(DecodeError::InvalidValue)
                }
            },
            _ => Err(DecodeError::InvalidValue),
        },
    }
}

/// Checks that the node has no arguments and no children.
pub fn check_no_args(n: &Node) -> (r: Result<(), DecodeError>)
    ensures
        r is Ok <==> n.arguments@.len() == 0 && n.children@.len() == 0,
{
    if n.arguments.len() > 0 {
        Err(DecodeError::UnexpectedArgument)
    } else if n.children.len() > 0 {
        Err(DecodeError::UnexpectedChild)
    } else {
        Ok(())
    }
}

/// Checks that the node has exactly one argument and no children.
pub fn check_one_arg(n: &Node) -> (r: Result<(), DecodeError>)
    ensures
        r is Ok <==> one_argument(*n),
{
    if n.arguments.len() == 0 {
        Err(DecodeError::MissingArgument)
    } else if n.arguments.len() > 1 {
        Err(DecodeError::UnexpectedArgument)
    } else if n.children.len() > 0 {
        Err(DecodeError::UnexpectedChild)
    } else {
        Ok(())
    }
}

} // verus!
