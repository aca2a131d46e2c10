//! The field editor: the operations that the inputs modal applies to the
//! selected input field.
use crate::domain::{has_type, InputField};
use crate::text::{drop_last_char, first_index, lemma_first_index_bounds, push_char, str_eq};
use vstd::prelude::*;

verus! {

/// The allowed value after `v`, circularly; the first one when `v` is not allowed.
pub open spec fn cycled_forward(opts: Seq<Seq<char>>, v: Seq<char>) -> Seq<char> {
    match first_index(opts, v, 0) {
        Some(i) => opts[(i + 1) % opts.len() as int],
        None => opts[0],
    }
}

/// The allowed value before `v`, circularly; the last one when `v` is not allowed.
pub open spec fn cycled_backward(opts: Seq<Seq<char>>, v: Seq<char>) -> Seq<char> {
    match first_index(opts, v, 0) {
        Some(i) => if i == 0 {
            opts.last()
        } else {
            opts[i - 1]
        },
        None => opts.last(),
    }
}

/// The other boolean literal: `"false"` for `"true"`, `"true"` for anything else.
pub open spec fn toggled(v: Seq<char>) -> Seq<char> {
    if v == "true"@ {
        "false"@
    } else {
        "true"@
    }
}

/// `new` is `old` with only the value of field `i` changed, to `v`.
pub open spec fn value_set(old: Seq<InputField>, new: Seq<InputField>, i: int, v: Seq<char>) -> bool {
    &&& new.len() == old.len()
    &&& forall|j: int| 0 <= j < old.len() && j != i ==> new[j] == old[j]
    &&& new[i].name == old[i].name
    &&& new[i].description == old[i].description
    &&& new[i].input_type == old[i].input_type
    &&& new[i].required == old[i].required
    &&& new[i].default_value == old[i].default_value
    &&& new[i].options == old[i].options
    &&& new[i].value@ == v
}

/// A field of type `choice` with at least one allowed value.
pub open spec fn cycles(f: InputField) -> bool {
    has_type(f, "choice"@) && f.options@.len() > 0
}

/// Position of the first allowed value equal to `v`.
fn position_of(opts: &Vec<String>, v: &String) -> (r: Option<usize>)
    ensures
        match r {
            Some(i) => first_index(opts.deep_view(), v@, 0) == Some(i as int),
            None => first_index(opts.deep_view(), v@, 0) is None,
        },
        r is Some ==> r->0 < opts@.len(),
{
    let ghost dv = opts.deep_view();
    let mut k: usize = 0;
    while k < opts.len()
        invariant
            dv == opts.deep_view(),
            k <= opts.len(),
            first_index(dv, v@, 0) == first_index(dv, v@, k as int),
        decreases opts.len() - k,
    {
        if opts[k] == *v {
            return Some(k);
        }
        k = k + 1;
    }
    None
}

/// Advances a `choice` field to its next allowed value, wrapping around;
/// any other field, or an index out of range, is left as it is.
pub fn cycle_choice_forward(fields: &mut Vec<InputField>, sel: usize)
    ensures
        sel < old(fields)@.len() && cycles(old(fields)@[sel as int]) ==> value_set(
            old(fields)@,
            final(fields)@,
            sel as int,
            cycled_forward(old(fields)@[sel as int].options.deep_view(), old(fields)@[sel as int].value@),
        ),
        !(sel < old(fields)@.len() && cycles(old(fields)@[sel as int])) ==> final(fields)@ == old(fields)@,
{
    if sel >= fields.len() || !str_eq(fields[sel].input_type.as_str(), "choice") || fields[sel].options.len() == 0 {
        return;
    }
    let n = fields[sel].options.len();
    let next = match position_of(&fields[sel].options, &fields[sel].value) {
        Some(i) => (i + 1) % n,
        None => 0,
    };
    let nv = fields[sel].options[next].clone();
    fields[sel].value = nv;
}

/// Moves a `choice` field to its previous allowed value, wrapping around;
/// any other field, or an index out of range, is left as it is.
pub fn cycle_choice_backward(fields: &mut Vec<InputField>, sel: usize)
    ensures
        sel < old(fields)@.len() && cycles(old(fields)@[sel as int]) ==> value_set(
            old(fields)@,
            final(fields)@,
            sel as int,
            cycled_backward(old(fields)@[sel as int].options.deep_view(), old(fields)@[sel as int].value@),
        ),
        !(sel < old(fields)@.len() && cycles(old(fields)@[sel as int])) ==> final(fields)@ == old(fields)@,
{
    if sel >= fields.len() || !str_eq(fields[sel].input_type.as_str(), "choice") || fields[sel].options.len() == 0 {
        return;
    }
    let n = fields[sel].options.len();
    let prev = match position_of(&fields[sel].options, &fields[sel].value) {
        Some(i) => if i == 0 {
            n - 1
        } else {
            i - 1
        },
        None => n - 1,
    };
    let nv = fields[sel].options[prev].clone();
    fields[sel].value = nv;
}

/// The value a field takes when character `c` is typed into it while editing.
pub open spec fn typed(f: InputField, c: char) -> Seq<char> {
    if has_type(f, "boolean"@) {
        toggled(f.value@)
    } else if has_type(f, "choice"@) {
        f.value@
    } else {
        f.value@.push(c)
    }
}

/// The value a field takes when backspace is pressed while editing.
pub open spec fn erased(f: InputField) -> Seq<char> {
    if has_type(f, "boolean"@) || has_type(f, "choice"@) || f.value@.len() == 0 {
        f.value@
    } else {
        f.value@.drop_last()
    }
}

/// Types `c` into field `sel`: appends it to a text value, toggles a boolean,
/// and leaves a choice as it is.
pub fn type_char(fields: &mut Vec<InputField>, sel: usize, c: char)
    ensures
        sel < old(fields)@.len() ==> value_set(old(fields)@, final(fields)@, sel as int, typed(old(fields)@[sel as int], c)),
        sel >= old(fields)@.len() ==> final(fields)@ == old(fields)@,
{
    if sel >= fields.len() {
        return;
    }
    if str_eq(fields[sel].input_type.as_str(), "boolean") {
        let nv = if str_eq(fields[sel].value.as_str(), "true") {
            String::from_str("false")
        } else {
            String::from_str("true")
        };
        fields[sel].value = nv;
    } else if !str_eq(fields[sel].input_type.as_str(), "choice") {
        push_char(&mut fields[sel].value, c);
    }
}

/// Removes the last character of a text value; booleans and choices are left
/// as they are.
pub fn erase_char(fields: &mut Vec<InputField>, sel: usize)
    ensures
        sel < old(fields)@.len() ==> value_set(old(fields)@, final(fields)@, sel as int, erased(old(fields)@[sel as int])),
        sel >= old(fields)@.len() ==> final(fields)@ == old(fields)@,
{
    if sel >= fields.len() {
        return;
    }
    if !str_eq(fields[sel].input_type.as_str(), "boolean") && !str_eq(fields[sel].input_type.as_str(), "choice") {
        let nv = drop_last_char(fields[sel].value.as_str());
        fields[sel].value = nv;
    }
}

/// A boolean field holds one of the two literals after any character is
/// typed into it, and typing twice from either literal restores it.
pub proof fn lemma_boolean_toggle(v: Seq<char>)
    ensures
        toggled(v) == "true"@ || toggled(v) == "false"@,
        v == "true"@ || v == "false"@ ==> toggled(toggled(v)) == v,
        v == "false"@ ==> toggled(v) == "true"@,
{
    reveal_strlit("true");
    reveal_strlit("false");
    assert("true"@ != "false"@) by {
        assert("true"@.len() != "false"@.len());
    }
}

/// Cycling forward through a choice's allowed values stays among them.
pub proof fn lemma_cycle_stays_allowed(opts: Seq<Seq<char>>, v: Seq<char>)
    requires
        opts.len() > 0,
    ensures
        opts.contains(cycled_forward(opts, v)),
        opts.contains(cycled_backward(opts, v)),
{
    lemma_first_index_bounds(opts, v, 0);
    match first_index(opts, v, 0) {
        Some(i) => {
            let n = opts.len() as int;
            let k = (i + 1) % n;
            assert(0 <= k < n) by (nonlinear_arith)
                requires k == (i + 1) % n, n > 0;
            assert(opts[k] == cycled_forward(opts, v));
            if i > 0 {
                assert(opts[i - 1] == cycled_backward(opts, v));
            } else {
                assert(opts[opts.len() - 1] == cycled_backward(opts, v));
            }
        },
        None => {
            assert(opts[0] == cycled_forward(opts, v));
            assert(opts[opts.len() - 1] == cycled_backward(opts, v));
        },
    }
}

} // verus!
