//! Typed input variables and their rendering as `-var=<name>=<value>` tokens.
use vstd::prelude::*;

verus! {

/// A variable value handed to the provisioning tool.
///
/// A floating-point value is held as its canonical decimal text, which is
/// all that rendering reads of it.
pub enum InputValues {
    Integer(i32),
    Float(String),
    Str(String),
}

/// The mathematical value of an [`InputValues`].
pub enum InputView {
    Integer(i32),
    Float(Seq<char>),
    Str(Seq<char>),
}

impl View for InputValues {
    type V = InputView;

    open spec fn view(&self) -> InputView {
        match self {
            InputValues::Integer(n) => InputView::Integer(*n),
            InputValues::Float(s) => InputView::Float(s@),
            InputValues::Str(s) => InputView::Str(s@),
        }
    }
}

impl InputValues {
    /// A copy with the same value.
    pub fn duplicate(&self) -> (r: InputValues)
        ensures
            r@ == self@,
    {
        match self {
            InputValues::Integer(n) => InputValues::Integer(*n),
            InputValues::Float(s) => InputValues::Float(s.clone()),
            InputValues::Str(s) => InputValues::Str(s.clone()),
        }
    }
}

/// The character of a decimal digit.
pub open spec fn digit_char(d: nat) -> char {
    if d == 0 { '0' }
    else if d == 1 { '1' }
    else if d == 2 { '2' }
    else if d == 3 { '3' }
    else if d == 4 { '4' }
    else if d == 5 { '5' }
    else if d == 6 { '6' }
    else if d == 7 { '7' }
    else if d == 8 { '8' }
    else { '9' }
}

/// Decimal digits of a natural number, most significant first, no leading zero.
pub open spec fn nat_text(n: nat) -> Seq<char>
    decreases n,
{
    if n < 10 {
        seq![digit_char(n)]
    } else {
        nat_text(n / 10) + seq![digit_char(n % 10)]
    }
}

/// Canonical decimal text of an integer: a leading `-` for negatives.
pub open spec fn int_text(n: int) -> Seq<char> {
    if n < 0 {
        seq!['-'] + nat_text((-n) as nat)
    } else {
        nat_text(n as nat)
    }
}

/// The text that a value renders as on the command line.
pub open spec fn value_text(v: InputView) -> Seq<char> {
    match v {
        InputView::Integer(n) => int_text(n as int),
        InputView::Float(s) => s,
        InputView::Str(s) => s,
    }
}

/// The token `-var=<name>=<text>`.
pub open spec fn var_token(name: Seq<char>, v: InputView) -> Seq<char> {
    "-var="@ + name + "="@ + value_text(v)
}

fn digit_str(d: u32) -> (r: &'static str)
    requires
        d < 10,
    ensures
        r@ == seq![digit_char(d as nat)],
{
    proof {
        reveal_strlit("0");
        reveal_strlit("1");
        reveal_strlit("2");
        reveal_strlit("3");
        reveal_strlit("4");
        reveal_strlit("5");
        reveal_strlit("6");
        reveal_strlit("7");
        reveal_strlit("8");
        reveal_strlit("9");
    }
    if d == 0 { "0" }
    else if d == 1 { "1" }
    else if d == 2 { "2" }
    else if d == 3 { "3" }
    else if d == 4 { "4" }
    else if d == 5 { "5" }
    else if d == 6 { "6" }
    else if d == 7 { "7" }
    else if d == 8 { "8" }
    else { "9" }
}

fn unsigned_text(n: u32) -> (r: String)
    ensures
        r@ == nat_text(n as nat),
    decreases n,
{
    if n < 10 {
        String::from_str(digit_str(n))
    } else {
        let mut s = unsigned_text(n / 10);
        s.append(digit_str(n % 10));
        s
    }
}

/// Canonical decimal text of an `i32`.
pub fn integer_text(n: i32) -> (r: String)
    ensures
        r@ == int_text(n as int),
{
    if n < 0 {
        let magnitude: u32 = (-(n as i64)) as u32;
        let digits = unsigned_text(magnitude);
        proof {
            reveal_strlit("-");
        }
        let s = String::from_str("-");
        s.concat(digits.as_str())
    } else {
        unsigned_text(n as u32)
    }
}

/// The text that `value` renders as on the command line: integers in
/// canonical decimal form, floats as their decimal text, strings verbatim.
pub fn render_value(value: &InputValues) -> (r: String)
    ensures
        r@ == value_text(value@),
{
    match value {
        InputValues::Integer(n) => integer_text(*n),
        InputValues::Float(s) => s.clone(),
        InputValues::Str(s) => s.clone(),
    }
}

/// The token `-var=<name>=<value>`. Neither part is quoted or escaped.
pub fn render_var(name: &str, value: &InputValues) -> (r: String)
    ensures
        r@ == var_token(name@, value@),
{
    let text = render_value(value);
    let mut s = String::from_str("-var=");
    s.append(name);
    s.append("=");
    s.append(text.as_str());
    s
}

/// The mathematical view of a list of named values.
pub open spec fn entries_view(s: Seq<(String, InputValues)>) -> Seq<(Seq<char>, InputView)> {
    s.map_values(|p: (String, InputValues)| (p.0@, p.1@))
}

/// The map that a list of named values denotes: a later entry for a name
/// replaces an earlier one.
pub open spec fn to_map(s: Seq<(Seq<char>, InputView)>) -> Map<Seq<char>, InputView>
    decreases s.len(),
{
    if s.len() == 0 {
        Map::empty()
    } else {
        to_map(s.drop_last()).insert(s.last().0, s.last().1)
    }
}

/// No name occurs twice.
pub open spec fn keys_unique(s: Seq<(Seq<char>, InputView)>) -> bool {
    forall|i: int, j: int| 0 <= i < s.len() && 0 <= j < s.len() && i != j ==> s[i].0 != s[j].0
}

/// A list without repeated names holds the map it denotes entry for entry:
/// each entry is in the map with its value, each name of the map is some
/// entry's, and the map has as many names as the list has entries.
pub proof fn lemma_entries_match_map(s: Seq<(Seq<char>, InputView)>)
    requires
        keys_unique(s),
    ensures
        to_map(s).dom().finite(),
        to_map(s).dom().len() == s.len(),
        forall|i: int|
            0 <= i < s.len() ==> #[trigger] to_map(s).contains_key(s[i].0) && to_map(s)[s[i].0]
                == s[i].1,
        forall|k: Seq<char>|
            #[trigger] to_map(s).contains_key(k) ==> exists|i: int| 0 <= i < s.len() && s[i].0 == k,
    decreases s.len(),
{
    if s.len() > 0 {
        let d = s.drop_last();
        assert(keys_unique(d));
        lemma_entries_match_map(d);
        let last = s.last();
        assert(!to_map(d).contains_key(last.0)) by {
            if to_map(d).contains_key(last.0) {
                let i = choose|i: int| 0 <= i < d.len() && d[i].0 == last.0;
                assert(s[i].0 == s[s.len() - 1].0);
            }
        }
        assert(to_map(s).dom() =~= to_map(d).dom().insert(last.0));
        assert forall|i: int| 0 <= i < s.len() implies #[trigger] to_map(s).contains_key(s[i].0)
            && to_map(s)[s[i].0] == s[i].1 by {
            if i < s.len() - 1 {
                assert(s[i] == d[i]);
                assert(s[i].0 != last.0);
            }
        }
        assert forall|k: Seq<char>| #[trigger] to_map(s).contains_key(k) implies exists|i: int|
            0 <= i < s.len() && s[i].0 == k by {
            if k != last.0 {
                let i = choose|i: int| 0 <= i < d.len() && d[i].0 == k;
                assert(s[i] == d[i]);
            } else {
                assert(s[s.len() - 1].0 == k);
            }
        }
    }
}

proof fn lemma_update_entry(s: Seq<(Seq<char>, InputView)>, j: int, k: Seq<char>, v: InputView)
    requires
        keys_unique(s),
        0 <= j < s.len(),
        s[j].0 == k,
    ensures
        to_map(s.update(j, (k, v))) == to_map(s).insert(k, v),
    decreases s.len(),
{
    let u = s.update(j, (k, v));
    if j == s.len() - 1 {
        assert(u.drop_last() =~= s.drop_last());
        assert(to_map(u) =~= to_map(s).insert(k, v));
    } else {
        let d = s.drop_last();
        assert(u.drop_last() =~= d.update(j, (k, v)));
        assert(keys_unique(d));
        lemma_update_entry(d, j, k, v);
        assert(s.last().0 != k);
        assert(to_map(u) =~= to_map(s).insert(k, v));
    }
}

/// Sets `name` to `value` in a list without repeated names, in place when
/// the name is there and at the end when it is not.
fn insert_entry(entries: &mut Vec<(String, InputValues)>, name: String, value: InputValues)
    requires
        keys_unique(entries_view(old(entries)@)),
    ensures
        keys_unique(entries_view(final(entries)@)),
        to_map(entries_view(final(entries)@)) == to_map(entries_view(old(entries)@)).insert(
            name@,
            value@,
        ),
{
    let ghost before = entries_view(entries@);
    let mut i: usize = 0;
    while i < entries.len()
        invariant
            0 <= i <= entries.len(),
            entries_view(entries@) == before,
            before == entries_view(old(entries)@),
            keys_unique(before),
            forall|j: int| 0 <= j < i ==> before[j].0 != name@,
        decreases entries.len() - i,
    {
        if entries[i].0 == name {
            let ghost nv = value@;
            let ghost nk = name@;
            assert(before[i as int].0 == nk);
            entries.set(i, (name, value));
            proof {
                assert(entries_view(entries@) =~= before.update(i as int, (before[i as int].0, nv)));
                lemma_update_entry(before, i as int, before[i as int].0, nv);
                assert(to_map(entries_view(entries@)) == to_map(before).insert(nk, nv));
            }
            return;
        }
        i += 1;
    }
    let ghost nk = name@;
    let ghost nv = value@;
    entries.push((name, value));
    proof {
        assert(entries_view(entries@) =~= before.push((nk, nv)));
        assert(entries_view(entries@).drop_last() =~= before);
    }
}

/// The entries of `pairs` with each name kept once, holding the value of
/// its last occurrence.
pub fn collect_inputs(pairs: &Vec<(String, InputValues)>) -> (r: Vec<(String, InputValues)>)
    ensures
        keys_unique(entries_view(r@)),
        to_map(entries_view(r@)) == to_map(entries_view(pairs@)),
{
    let mut r: Vec<(String, InputValues)> = Vec::new();
    let mut i: usize = 0;
    proof {
        assert(entries_view(pairs@).take(0) =~= Seq::<(Seq<char>, InputView)>::empty());
        assert(entries_view(r@) =~= Seq::<(Seq<char>, InputView)>::empty());
    }
    while i < pairs.len()
        invariant
            0 <= i <= pairs.len(),
            keys_unique(entries_view(r@)),
            to_map(entries_view(r@)) == to_map(entries_view(pairs@).take(i as int)),
        decreases pairs.len() - i,
    {
        let name = pairs[i].0.clone();
        let value = pairs[i].1.duplicate();
        insert_entry(&mut r, name, value);
        proof {
            assert(entries_view(pairs@).take(i + 1).drop_last() =~= entries_view(pairs@).take(
                i as int,
            ));
        }
        i += 1;
    }
    proof {
        assert(entries_view(pairs@).take(i as int) =~= entries_view(pairs@));
    }
    r
}

} // verus!
