//! The value model: null, booleans, numbers, strings, ordered lists and
//! key-to-value maps, used for variables, parameters and expression results.

use crate::float;
use crate::text::{decimal, i64_text, signed_decimal, str_equal, u64_text};
use vstd::prelude::*;

verus! {

/// A number as a document writes it: an unsigned integer, a signed integer or
/// an IEEE-754 binary64 number given by its bit pattern.
#[derive(Clone, Copy, Debug)]
pub enum Number {
    PosInt(u64),
    NegInt(i64),
    Float(u64),
}

/// The greatest magnitude up to which every integer is a binary64 number: 2^53.
pub const EXACT_LIMIT: i64 = 9007199254740992;

impl Number {
    /// The integer that an integer variant holds.
    pub open spec fn int_value(self) -> Option<int> {
        match self {
            Number::PosInt(n) => Some(n as int),
            Number::NegInt(n) => Some(n as int),
            Number::Float(_) => None,
        }
    }

    /// The number as a binary64 pattern: integers are converted, rounding to
    /// the nearest representable number. The integer 0 is positive zero.
    pub open spec fn float_bits(self) -> u64 {
        match self {
            Number::PosInt(n) => if n == 0 {
                0
            } else {
                float::ieee_from_u64(n)
            },
            Number::NegInt(n) => if n == 0 {
                0
            } else {
                float::ieee_from_i64(n)
            },
            Number::Float(bits) => bits,
        }
    }

    /// The integer that an integer variant of magnitude at most 2^53 holds.
    /// Such an integer is a binary64 number itself: its pattern stands for
    /// the integer exactly.
    pub open spec fn small_integer(self) -> Option<int> {
        match self.int_value() {
            Some(n) => if -EXACT_LIMIT <= n <= EXACT_LIMIT {
                Some(n)
            } else {
                None
            },
            None => None,
        }
    }

    /// The integer that a binary64 number is, where its value is integral
    /// and lies within the signed 64-bit integers: the integer nearest to it,
    /// if that integer is the number itself.
    pub open spec fn integral(bits: u64) -> Option<i64> {
        match float::ieee_round_to_i64(bits) {
            Some(k) => if float::equal(Number::of_int(k).float_bits(), bits) {
                Some(k)
            } else {
                None
            },
            None => None,
        }
    }

    /// The number as a signed 64-bit integer, where its value is an integer
    /// in range, however the number is written: `3` and `3.0` are both 3, and
    /// `1.5` is no integer.
    pub open spec fn integer(self) -> Option<i64> {
        match self {
            Number::PosInt(n) => if n <= i64::MAX as u64 {
                Some(n as i64)
            } else {
                None
            },
            Number::NegInt(n) => Some(n),
            Number::Float(bits) => Number::integral(bits),
        }
    }

    /// Equality of numbers: they are compared as binary64 numbers, however
    /// they are written, so `1` equals `1.0`. Of two integers of magnitude at
    /// most 2^53, which are binary64 numbers themselves, that is equality of
    /// the integers; of any other two numbers it is IEEE `==` on their
    /// patterns.
    pub open spec fn same(self, other: Number) -> bool {
        match (self.small_integer(), other.small_integer()) {
            (Some(x), Some(y)) => x == y,
            _ => float::equal(self.float_bits(), other.float_bits()),
        }
    }

    /// The number that stands for the signed integer `n`.
    pub open spec fn of_int(n: i64) -> Number {
        if n >= 0 {
            Number::PosInt(n as u64)
        } else {
            Number::NegInt(n)
        }
    }

    /// The text of the number: decimal digits for an integer, and for a float
    /// what [`float::float_display`] gives.
    pub open spec fn text(self) -> Seq<char> {
        match self {
            Number::PosInt(n) => decimal(n as nat),
            Number::NegInt(n) => signed_decimal(n as int),
            Number::Float(bits) => float::float_display(bits),
        }
    }

    /// The text of the number.
    pub fn to_text(&self) -> (r: String)
        ensures
            r@ == self.text(),
    {
        match self {
            Number::PosInt(n) => u64_text(*n),
            Number::NegInt(n) => i64_text(*n),
            Number::Float(bits) => float::float_text(*bits),
        }
    }

    /// The number that holds the signed integer `n`.
    pub fn from_i64(n: i64) -> (r: Number)
        ensures
            r == Number::of_int(n),
    {
        if n >= 0 {
            Number::PosInt(n as u64)
        } else {
            Number::NegInt(n)
        }
    }

    /// The number as a binary64 pattern.
    pub fn as_float(&self) -> (r: u64)
        ensures
            r == self.float_bits(),
    {
        match self {
            Number::PosInt(n) => if *n == 0 {
                0
            } else {
                float::apfloat_from_u64(*n)
            },
            Number::NegInt(n) => if *n == 0 {
                0
            } else {
                float::apfloat_from_i64(*n)
            },
            Number::Float(bits) => *bits,
        }
    }

    /// The integer of a binary64 number, where it is one: see [`Number::integral`].
    pub fn integral_of(bits: u64) -> (r: Option<i64>)
        ensures
            r == Number::integral(bits),
    {
        match float::apfloat_round_to_i64(bits) {
            Some(k) => if float::bits_equal(Number::from_i64(k).as_float(), bits) {
                Some(k)
            } else {
                None
            },
            None => None,
        }
    }

    /// The number as a signed integer, where it is one.
    pub fn as_i64(&self) -> (r: Option<i64>)
        ensures
            r == self.integer(),
    {
        match self {
            Number::PosInt(n) => if *n <= i64::MAX as u64 {
                Some(*n as i64)
            } else {
                None
            },
            Number::NegInt(n) => Some(*n),
            Number::Float(bits) => Number::integral_of(*bits),
        }
    }

    /// The integer of an integer variant of magnitude at most 2^53.
    pub fn as_small_integer(&self) -> (r: Option<i64>)
        ensures
            match r {
                Some(n) => self.small_integer() == Some(n as int),
                None => self.small_integer() is None,
            },
    {
        match self {
            Number::PosInt(n) => if *n <= EXACT_LIMIT as u64 {
                Some(*n as i64)
            } else {
                None
            },
            Number::NegInt(n) => if -EXACT_LIMIT <= *n && *n <= EXACT_LIMIT {
                Some(*n)
            } else {
                None
            },
            Number::Float(_) => None,
        }
    }

    /// Whether two numbers are equal: see [`Number::same`].
    pub fn equals(&self, other: &Number) -> (r: bool)
        ensures
            r == self.same(*other),
    {
        match (self.as_small_integer(), other.as_small_integer()) {
            (Some(x), Some(y)) => x == y,
            _ => float::bits_equal(self.as_float(), other.as_float()),
        }
    }
}

/// A value as the interpreter holds it.
#[derive(Debug)]
pub enum Value {
    Null,
    Bool(bool),
    Number(Number),
    String(String),
    List(Vec<Value>),
    /// Entries in the order they were written. A key that occurs twice is
    /// read at its first entry.
    Object(Vec<(String, Value)>),
}

/// The mathematical value that a [`Value`] stands for.
pub enum JsonModel {
    Null,
    Bool(bool),
    Number(Number),
    String(Seq<char>),
    List(Seq<JsonModel>),
    Object(Seq<(Seq<char>, JsonModel)>),
}

/// Index of the first entry at or after `start` whose key is `key`.
pub open spec fn find_from<V>(entries: Seq<(Seq<char>, V)>, key: Seq<char>, start: int) -> Option<
    int,
>
    decreases entries.len() - start,
{
    if start < 0 || start >= entries.len() {
        None
    } else if entries[start].0 == key {
        Some(start)
    } else {
        find_from(entries, key, start + 1)
    }
}

/// What an entry list binds `key` to: the value of the first entry with that key.
pub open spec fn lookup<V>(entries: Seq<(Seq<char>, V)>, key: Seq<char>) -> Option<V> {
    match find_from(entries, key, 0) {
        Some(i) => Some(entries[i].1),
        None => None,
    }
}

/// `find_from` returns an index in range at which the key stands, with no
/// earlier match from `start` on.
pub proof fn lemma_find_from<V>(entries: Seq<(Seq<char>, V)>, key: Seq<char>, start: int)
    requires
        0 <= start,
    ensures
        match find_from(entries, key, start) {
            Some(i) => start <= i < entries.len() && entries[i].0 == key && forall|j: int|
                start <= j < i ==> entries[j].0 != key,
            None => forall|j: int| start <= j < entries.len() ==> entries[j].0 != key,
        },
    decreases entries.len() - start,
{
    if start < entries.len() && entries[start].0 != key {
        lemma_find_from(entries, key, start + 1);
    }
}

/// Structural equality of values. Numbers compare as binary64 numbers (see
/// [`Number::same`]), lists
/// element by element, maps by what they bind each key to, whatever the order
/// of their entries. Values of different kinds are unequal.
pub open spec fn json_equal(a: JsonModel, b: JsonModel) -> bool
    decreases a,
{
    match (a, b) {
        (JsonModel::Null, JsonModel::Null) => true,
        (JsonModel::Bool(x), JsonModel::Bool(y)) => x == y,
        (JsonModel::Number(x), JsonModel::Number(y)) => x.same(y),
        (JsonModel::String(x), JsonModel::String(y)) => x == y,
        (JsonModel::List(x), JsonModel::List(y)) => x.len() == y.len() && forall|i: int|
            0 <= i < x.len() ==> json_equal(#[trigger] x[i], y[i]),
        (JsonModel::Object(x), JsonModel::Object(y)) => {
            &&& forall|j: int| 0 <= j < y.len() ==> lookup(x, #[trigger] y[j].0) is Some
            &&& forall|i: int|
                0 <= i < x.len() ==> match lookup(y, #[trigger] x[i].0) {
                    Some(w) => find_from(x, x[i].0, 0) == Some(i) ==> json_equal(x[i].1, w),
                    None => false,
                }
        },
        _ => false,
    }
}

/// The models of the first `n` items of a list.
pub open spec fn list_prefix(items: Vec<Value>, n: nat) -> Seq<JsonModel>
    decreases items, n,
{
    if n == 0 || n > items.len() {
        Seq::empty()
    } else {
        list_prefix(items, (n - 1) as nat).push(items[n - 1].view())
    }
}

/// The models of the first `n` entries of an entry list.
pub open spec fn entries_prefix(entries: Vec<(String, Value)>, n: nat) -> Seq<
    (Seq<char>, JsonModel),
>
    decreases entries, n,
{
    if n == 0 || n > entries.len() {
        Seq::empty()
    } else {
        entries_prefix(entries, (n - 1) as nat).push(
            (entries[n - 1].0@, entries[n - 1].1.view()),
        )
    }
}

impl View for Value {
    type V = JsonModel;

    open spec fn view(&self) -> JsonModel
        decreases self, 0nat,
    {
        match self {
            Value::Null => JsonModel::Null,
            Value::Bool(b) => JsonModel::Bool(*b),
            Value::Number(n) => JsonModel::Number(*n),
            Value::String(s) => JsonModel::String(s@),
            Value::List(items) => JsonModel::List(list_prefix(*items, items.len() as nat)),
            Value::Object(entries) => JsonModel::Object(
                entries_prefix(*entries, entries.len() as nat),
            ),
        }
    }
}

/// The entry list that a vector of keyed values stands for.
pub open spec fn entries_view(entries: Seq<(String, Value)>) -> Seq<(Seq<char>, JsonModel)> {
    Seq::new(entries.len(), |i: int| (entries[i].0@, entries[i].1@))
}

/// The list that a vector of values stands for.
pub open spec fn items_view(items: Seq<Value>) -> Seq<JsonModel> {
    Seq::new(items.len(), |i: int| items[i]@)
}

/// The prefix of `n` items is the view of the first `n` items.
proof fn lemma_list_prefix(items: Vec<Value>, n: nat)
    requires
        n <= items.len(),
    ensures
        list_prefix(items, n) == items_view(items@.take(n as int)),
    decreases n,
{
    let want = items_view(items@.take(n as int));
    if n > 0 {
        assert(list_prefix(items, n) == list_prefix(items, (n - 1) as nat).push(
            items[n - 1].view(),
        ));
        lemma_list_prefix(items, (n - 1) as nat);
        let shorter = items_view(items@.take(n - 1));
        assert forall|i: int| 0 <= i < n implies list_prefix(items, n)[i] == want[i] by {
            if i < n - 1 {
                assert(shorter[i] == items@.take(n - 1)[i]@);
            }
        }
    }
    assert(list_prefix(items, n) =~= want);
}

/// The prefix of `n` entries is the view of the first `n` entries.
proof fn lemma_entries_prefix(entries: Vec<(String, Value)>, n: nat)
    requires
        n <= entries.len(),
    ensures
        entries_prefix(entries, n) == entries_view(entries@.take(n as int)),
    decreases n,
{
    let want = entries_view(entries@.take(n as int));
    if n > 0 {
        assert(entries_prefix(entries, n) == entries_prefix(entries, (n - 1) as nat).push(
            (entries[n - 1].0@, entries[n - 1].1.view()),
        ));
        lemma_entries_prefix(entries, (n - 1) as nat);
        let shorter = entries_view(entries@.take(n - 1));
        assert forall|i: int| 0 <= i < n implies entries_prefix(entries, n)[i] == want[i] by {
            if i < n - 1 {
                assert(shorter[i].1 == entries@.take(n - 1)[i].1@);
            }
        }
    }
    assert(entries_prefix(entries, n) =~= want);
}

/// An object's model lists the models of its entries, in order.
pub proof fn lemma_view_object(entries: Vec<(String, Value)>)
    ensures
        Value::Object(entries)@ == JsonModel::Object(entries_view(entries@)),
{
    lemma_entries_prefix(entries, entries.len() as nat);
    assert(entries@.take(entries.len() as int) =~= entries@);
}

/// A list's model lists the models of its items, in order.
pub proof fn lemma_view_list(items: Vec<Value>)
    ensures
        Value::List(items)@ == JsonModel::List(items_view(items@)),
{
    lemma_list_prefix(items, items.len() as nat);
    assert(items@.take(items.len() as int) =~= items@);
}

/// Position of the first entry with key `key`, if there is one.
pub fn find_entry(entries: &Vec<(String, Value)>, key: &str) -> (r: Option<usize>)
    ensures
        match r {
            Some(i) => find_from(entries_view(entries@), key@, 0) == Some(i as int) && i
                < entries.len(),
            None => find_from(entries_view(entries@), key@, 0) is None,
        },
{
    let mut i: usize = 0;
    while i < entries.len()
        invariant
            i <= entries.len(),
            find_from(entries_view(entries@), key@, 0) == find_from(
                entries_view(entries@),
                key@,
                i as int,
            ),
        decreases entries.len() - i,
    {
        if str_equal(entries[i].0.as_str(), key) {
            return Some(i);
        }
        i += 1;
    }
    None
}

/// The value that an entry list binds `key` to.
pub fn get_entry<'a>(entries: &'a Vec<(String, Value)>, key: &str) -> (r: Option<&'a Value>)
    ensures
        match r {
            Some(v) => lookup(entries_view(entries@), key@) == Some(v@),
            None => lookup(entries_view(entries@), key@) is None,
        },
{
    match find_entry(entries, key) {
        Some(i) => Some(&entries[i].1),
        None => None,
    }
}

/// A copy of a list of values.
pub fn clone_items(items: &Vec<Value>) -> (r: Vec<Value>)
    ensures
        items_view(r@) == items_view(items@),
    decreases items,
{
    let mut out: Vec<Value> = Vec::new();
    let mut i: usize = 0;
    while i < items.len()
        invariant
            i <= items.len(),
            out.len() == i,
            forall|j: int| 0 <= j < i ==> out[j]@ == items[j]@,
        decreases items.len() - i,
    {
        out.push(items[i].clone());
        i += 1;
    }
    assert(items_view(out@) =~= items_view(items@));
    out
}

/// A copy of an entry list.
pub fn clone_entries(entries: &Vec<(String, Value)>) -> (r: Vec<(String, Value)>)
    ensures
        entries_view(r@) == entries_view(entries@),
    decreases entries,
{
    let mut out: Vec<(String, Value)> = Vec::new();
    let mut i: usize = 0;
    while i < entries.len()
        invariant
            i <= entries.len(),
            out.len() == i,
            forall|j: int|
                0 <= j < i ==> out[j].0@ == entries[j].0@ && out[j].1@ == entries[j].1@,
        decreases entries.len() - i,
    {
        out.push((entries[i].0.clone(), entries[i].1.clone()));
        i += 1;
    }
    assert(entries_view(out@) =~= entries_view(entries@));
    out
}

impl Clone for Value {
    fn clone(&self) -> (r: Value)
        ensures
            r@ == self@,
        decreases self,
    {
        match self {
            Value::Null => Value::Null,
            Value::Bool(b) => Value::Bool(*b),
            Value::Number(n) => Value::Number(*n),
            Value::String(s) => Value::String(s.clone()),
            Value::List(items) => {
                let out = clone_items(items);
                proof {
                    lemma_view_list(out);
                    lemma_view_list(*items);
                }
                Value::List(out)
            },
            Value::Object(entries) => {
                let out = clone_entries(entries);
                proof {
                    lemma_view_object(out);
                    lemma_view_object(*entries);
                }
                Value::Object(out)
            },
        }
    }
}

/// Whether two lists hold equal values at every position.
pub fn items_equal(x: &Vec<Value>, y: &Vec<Value>) -> (r: bool)
    ensures
        r == json_equal(JsonModel::List(items_view(x@)), JsonModel::List(items_view(y@))),
    decreases x,
{
    if x.len() != y.len() {
        return false;
    }
    let ghost xs = items_view(x@);
    let ghost ys = items_view(y@);
    let mut i: usize = 0;
    while i < x.len()
        invariant
            i <= x.len(),
            x.len() == y.len(),
            xs == items_view(x@),
            ys == items_view(y@),
            forall|k: int| 0 <= k < i ==> json_equal(#[trigger] xs[k], ys[k]),
        decreases x.len() - i,
    {
        if !x[i].equals(&y[i]) {
            assert(!json_equal(xs[i as int], ys[i as int]));
            return false;
        }
        i += 1;
    }
    true
}

/// Whether two entry lists bind the same keys to equal values.
pub fn entries_equal(x: &Vec<(String, Value)>, y: &Vec<(String, Value)>) -> (r: bool)
    ensures
        r == json_equal(
            JsonModel::Object(entries_view(x@)),
            JsonModel::Object(entries_view(y@)),
        ),
    decreases x,
{
    let ghost xs = entries_view(x@);
    let ghost ys = entries_view(y@);
    let mut j: usize = 0;
    while j < y.len()
        invariant
            j <= y.len(),
            xs == entries_view(x@),
            ys == entries_view(y@),
            forall|k: int| 0 <= k < j ==> lookup(xs, #[trigger] ys[k].0) is Some,
        decreases y.len() - j,
    {
        if find_entry(x, y[j].0.as_str()).is_none() {
            assert(lookup(xs, ys[j as int].0) is None);
            return false;
        }
        j += 1;
    }
    let mut i: usize = 0;
    while i < x.len()
        invariant
            i <= x.len(),
            xs == entries_view(x@),
            ys == entries_view(y@),
            forall|k: int|
                0 <= k < i ==> match lookup(ys, #[trigger] xs[k].0) {
                    Some(w) => find_from(xs, xs[k].0, 0) == Some(k) ==> json_equal(xs[k].1, w),
                    None => false,
                },
        decreases x.len() - i,
    {
        match find_entry(y, x[i].0.as_str()) {
            None => {
                assert(lookup(ys, xs[i as int].0) is None);
                return false;
            },
            Some(pos) => {
                let first = find_entry(x, x[i].0.as_str());
                if first == Some(i) {
                    if !x[i].1.equals(&y[pos].1) {
                        assert(!json_equal(xs[i as int].1, ys[pos as int].1));
                        return false;
                    }
                }
            },
        }
        i += 1;
    }
    true
}

impl Value {
    /// Structural equality: see [`json_equal`].
    pub fn equals(&self, other: &Value) -> (r: bool)
        ensures
            r == json_equal(self@, other@),
        decreases self,
    {
        match (self, other) {
            (Value::Null, Value::Null) => true,
            (Value::Bool(x), Value::Bool(y)) => *x == *y,
            (Value::Number(x), Value::Number(y)) => x.equals(y),
            (Value::String(x), Value::String(y)) => str_equal(x.as_str(), y.as_str()),
            (Value::List(x), Value::List(y)) => {
                proof {
                    lemma_view_list(*x);
                    lemma_view_list(*y);
                }
                items_equal(x, y)
            },
            (Value::Object(x), Value::Object(y)) => {
                proof {
                    lemma_view_object(*x);
                    lemma_view_object(*y);
                }
                entries_equal(x, y)
            },
            _ => false,
        }
    }

    /// The text of a string value.
    pub fn as_str(&self) -> (r: Option<&str>)
        ensures
            match r {
                Some(s) => self@ == JsonModel::String(s@),
                None => !(self@ is String),
            },
    {
        match self {
            Value::String(s) => Some(s.as_str()),
            _ => None,
        }
    }

    /// The binary64 pattern of a number value.
    pub fn as_float(&self) -> (r: Option<u64>)
        ensures
            r == float_of(self@),
    {
        match self {
            Value::Number(n) => Some(n.as_float()),
            _ => None,
        }
    }

    /// The signed integer that a number value is, where it is one.
    pub fn as_i64(&self) -> (r: Option<i64>)
        ensures
            r == integer_of(self@),
    {
        match self {
            Value::Number(n) => n.as_i64(),
            _ => None,
        }
    }

    /// The items of a list value.
    pub fn as_array(&self) -> (r: Option<&Vec<Value>>)
        ensures
            match r {
                Some(items) => self@ == JsonModel::List(items_view(items@)),
                None => !(self@ is List),
            },
    {
        match self {
            Value::List(items) => {
                proof {
                    lemma_view_list(*items);
                }
                Some(items)
            },
            _ => None,
        }
    }

    /// The entries of an object value.
    pub fn as_object(&self) -> (r: Option<&Vec<(String, Value)>>)
        ensures
            match r {
                Some(entries) => self@ == JsonModel::Object(entries_view(entries@)),
                None => !(self@ is Object),
            },
    {
        match self {
            Value::Object(entries) => {
                proof {
                    lemma_view_object(*entries);
                }
                Some(entries)
            },
            _ => None,
        }
    }
}

/// The binary64 pattern of a value, where the value is a number.
pub open spec fn float_of(v: JsonModel) -> Option<u64> {
    match v {
        JsonModel::Number(n) => Some(n.float_bits()),
        _ => None,
    }
}

/// The signed integer of a value, where the value is a number whose value
/// is an integer in range.
pub open spec fn integer_of(v: JsonModel) -> Option<i64> {
    match v {
        JsonModel::Number(n) => n.integer(),
        _ => None,
    }
}

} // verus!
