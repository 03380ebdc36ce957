//! The operations of the provisioning tool and the argument vector that
//! each one is run with: `[keyword, ...variables, ...flags, ...options]`.
use crate::inputs::{
    entries_view, keys_unique, lemma_entries_match_map, render_var, to_map, var_token, InputValues,
    InputView,
};
use vstd::prelude::*;

verus! {

/// An action of the provisioning tool.
#[derive(PartialEq, Eq, Structural, Clone, Copy, Debug)]
pub enum Operation {
    Init,
    Plan,
    Apply,
    Destroy,
    Refresh,
    Taint,
    Untaint,
    Show,
    Output,
    State,
}

/// The command word of an operation.
pub open spec fn keyword_of(op: Operation) -> Seq<char> {
    match op {
        Operation::Init => "init"@,
        Operation::Plan => "plan"@,
        Operation::Apply => "apply"@,
        Operation::Destroy => "destroy"@,
        Operation::Refresh => "refresh"@,
        Operation::Taint => "taint"@,
        Operation::Untaint => "untaint"@,
        Operation::Show => "show"@,
        Operation::Output => "output"@,
        Operation::State => "state"@,
    }
}

/// Operations that take variables and run without asking for confirmation.
pub open spec fn takes_vars(op: Operation) -> bool {
    op == Operation::Apply || op == Operation::Plan || op == Operation::Destroy || op
        == Operation::Refresh
}

/// The views of a list of strings.
pub open spec fn strings_view(v: Seq<String>) -> Seq<Seq<char>> {
    v.map_values(|s: String| s@)
}

/// One `-var` token for each entry, in the entries' order.
pub open spec fn var_tokens(entries: Seq<(Seq<char>, InputView)>) -> Seq<Seq<char>> {
    entries.map_values(|e: (Seq<char>, InputView)| var_token(e.0, e.1))
}

/// The variable arguments of an operation.
pub open spec fn inputs_of(op: Operation, entries: Seq<(Seq<char>, InputView)>) -> Seq<Seq<char>> {
    if takes_vars(op) {
        var_tokens(entries)
    } else {
        Seq::empty()
    }
}

/// The flags of an operation.
pub open spec fn flags_of(op: Operation) -> Seq<Seq<char>> {
    if takes_vars(op) {
        seq!["-auto-approve"@]
    } else if op == Operation::Output {
        seq!["-json"@]
    } else {
        Seq::empty()
    }
}

/// The options of an operation: none so far for any of them.
pub open spec fn options_of(op: Operation) -> Seq<Seq<char>> {
    Seq::empty()
}

/// The full argument vector of an operation over the given entries.
pub open spec fn args_of(op: Operation, entries: Seq<(Seq<char>, InputView)>) -> Seq<Seq<char>> {
    seq![keyword_of(op)] + inputs_of(op, entries) + flags_of(op) + options_of(op)
}

/// The arguments that fetch a module from a git source into the workspace.
pub open spec fn init_args_of(source: Seq<char>) -> Seq<Seq<char>> {
    seq!["init"@, "-from-module=git::"@ + source]
}

/// A token that sets a variable.
pub open spec fn is_var_token(t: Seq<char>) -> bool {
    t.len() >= 5 && t.subrange(0, 5) == "-var="@
}

impl Operation {
    /// The command word of this operation.
    pub fn keyword(&self) -> (r: String)
        ensures
            r@ == keyword_of(*self),
    {
        match self {
            Operation::Init => String::from_str("init"),
            Operation::Plan => String::from_str("plan"),
            Operation::Apply => String::from_str("apply"),
            Operation::Destroy => String::from_str("destroy"),
            Operation::Refresh => String::from_str("refresh"),
            Operation::Taint => String::from_str("taint"),
            Operation::Untaint => String::from_str("untaint"),
            Operation::Show => String::from_str("show"),
            Operation::Output => String::from_str("output"),
            Operation::State => String::from_str("state"),
        }
    }

    /// Whether this operation takes variables and the auto-approve flag.
    pub fn takes_vars(&self) -> (r: bool)
        ensures
            r == takes_vars(*self),
    {
        match self {
            Operation::Apply | Operation::Plan | Operation::Destroy | Operation::Refresh => true,
            _ => false,
        }
    }
}

/// The `-var=<name>=<value>` tokens for `op`: one per entry for operations
/// that take variables, none for the others.
pub fn generate_inputs(op: Operation, entries: &Vec<(String, InputValues)>) -> (r: Vec<String>)
    ensures
        strings_view(r@) == inputs_of(op, entries_view(entries@)),
{
    let mut r: Vec<String> = Vec::new();
    if !op.takes_vars() {
        assert(strings_view(r@) =~= inputs_of(op, entries_view(entries@)));
        return r;
    }
    let ghost want = var_tokens(entries_view(entries@));
    let mut i: usize = 0;
    while i < entries.len()
        invariant
            0 <= i <= entries.len(),
            want == var_tokens(entries_view(entries@)),
            strings_view(r@) =~= want.take(i as int),
        decreases entries.len() - i,
    {
        let token = render_var(entries[i].0.as_str(), &entries[i].1);
        proof {
            assert(entries_view(entries@)[i as int] == (entries@[i as int].0@, entries@[i as int].1@));
            assert(want[i as int] == token@);
        }
        let ghost prev = r@;
        let ghost t = token@;
        r.push(token);
        proof {
            assert(strings_view(r@) =~= strings_view(prev).push(t));
            assert(want.take(i + 1) =~= want.take(i as int).push(t));
            assert(strings_view(r@) =~= want.take(i + 1));
        }
        i += 1;
    }
    assert(want.take(i as int) =~= want);
    r
}

/// The flags for `op`: auto-approve for operations that take variables,
/// machine-readable output for `Output`, none for the others.
pub fn generate_flags(op: Operation) -> (r: Vec<String>)
    ensures
        strings_view(r@) == flags_of(op),
{
    let mut r: Vec<String> = Vec::new();
    if op.takes_vars() {
        r.push(String::from_str("-auto-approve"));
    } else if op == Operation::Output {
        r.push(String::from_str("-json"));
    }
    assert(strings_view(r@) =~= flags_of(op));
    r
}

/// The option values for `op`; no operation has any yet.
pub fn generate_options(op: Operation) -> (r: Vec<String>)
    ensures
        strings_view(r@) == options_of(op),
{
    let r: Vec<String> = Vec::new();
    assert(strings_view(r@) =~= options_of(op));
    r
}

/// The argument vector of `op`: its keyword, then its variables, then its
/// flags, then its options.
pub fn build_args(op: Operation, entries: &Vec<(String, InputValues)>) -> (r: Vec<String>)
    ensures
        strings_view(r@) == args_of(op, entries_view(entries@)),
{
    let mut r: Vec<String> = Vec::new();
    r.push(op.keyword());
    let mut inputs = generate_inputs(op, entries);
    let mut flags = generate_flags(op);
    let mut options = generate_options(op);
    let ghost first = r@;
    let ghost vars = inputs@;
    let ghost fl = flags@;
    let ghost opts = options@;
    r.append(&mut inputs);
    r.append(&mut flags);
    r.append(&mut options);
    assert(r@ =~= first + vars + fl + opts);
    assert(strings_view(r@) =~= args_of(op, entries_view(entries@)));
    r
}

/// The arguments of the initialization that fetches `source`.
pub fn init_args(source: &str) -> (r: Vec<String>)
    ensures
        strings_view(r@) == init_args_of(source@),
{
    let mut r: Vec<String> = Vec::new();
    r.push(String::from_str("init"));
    let module = String::from_str("-from-module=git::");
    r.push(module.concat(source));
    assert(strings_view(r@) =~= init_args_of(source@));
    r
}

/// A name without `=`.
pub open spec fn plain_name(k: Seq<char>) -> bool {
    forall|i: int| 0 <= i < k.len() ==> k[i] != '='
}

proof fn lemma_not_var_token(t: Seq<char>)
    requires
        t.len() >= 2,
        t[1] != 'v',
    ensures
        !is_var_token(t),
{
    reveal_strlit("-var=");
    if t.len() >= 5 {
        assert(t.subrange(0, 5)[1] == t[1]);
    }
}

proof fn lemma_var_token_is_var(k: Seq<char>, v: InputView)
    ensures
        is_var_token(var_token(k, v)),
{
    reveal_strlit("-var=");
    assert(var_token(k, v).subrange(0, 5) =~= "-var="@);
}

proof fn lemma_same_token_same_name(k1: Seq<char>, v1: InputView, k2: Seq<char>, v2: InputView)
    requires
        plain_name(k1),
        plain_name(k2),
        var_token(k1, v1) == var_token(k2, v2),
    ensures
        k1 == k2,
{
    reveal_strlit("-var=");
    reveal_strlit("=");
    let t1 = var_token(k1, v1);
    let t2 = var_token(k2, v2);
    if k1.len() < k2.len() {
        assert(t1[5 + k1.len() as int] == '=');
        assert(t2[5 + k1.len() as int] == k2[k1.len() as int]);
    } else if k2.len() < k1.len() {
        assert(t2[5 + k2.len() as int] == '=');
        assert(t1[5 + k2.len() as int] == k1[k2.len() as int]);
    } else {
        assert(t1.subrange(5, 5 + k1.len() as int) =~= k1);
        assert(t2.subrange(5, 5 + k2.len() as int) =~= k2);
    }
}

/// For an operation that takes variables, the arguments hold one `-var`
/// token per entry and no other: the keyword comes first, the auto-approve
/// flag last, and between them the entries' tokens, no two alike, one for
/// each name of the map the entries denote. Names are
/// distinct in a stored input set; they must also be free of `=`, since
/// rendering does not escape and a `=` in a name can make two tokens
/// coincide.
pub proof fn lemma_one_var_token_per_entry(op: Operation, entries: Seq<(Seq<char>, InputView)>)
    requires
        takes_vars(op),
        keys_unique(entries),
        forall|i: int| 0 <= i < entries.len() ==> plain_name(#[trigger] entries[i].0),
    ensures
        args_of(op, entries).len() == entries.len() + 2,
        forall|i: int|
            0 <= i < entries.len() ==> args_of(op, entries)[i + 1] == var_token(
                entries[i].0,
                entries[i].1,
            ) && is_var_token(#[trigger] args_of(op, entries)[i + 1]),
        args_of(op, entries).subrange(1, entries.len() as int + 1).no_duplicates(),
        !is_var_token(args_of(op, entries)[0]),
        !is_var_token(args_of(op, entries)[entries.len() as int + 1]),
        args_of(op, entries)[entries.len() as int + 1] == "-auto-approve"@,
        args_of(op, entries).len() == to_map(entries).dom().len() + 2,
        forall|k: Seq<char>|
            #[trigger] to_map(entries).contains_key(k) ==> exists|i: int|
                1 <= i <= entries.len() && args_of(op, entries)[i] == var_token(
                    k,
                    to_map(entries)[k],
                ),
{
    lemma_entries_match_map(entries);
    let a = args_of(op, entries);
    let n = entries.len() as int;
    assert(a =~= seq![keyword_of(op)] + inputs_of(op, entries) + flags_of(op));
    assert(a =~= seq![keyword_of(op)] + var_tokens(entries) + seq!["-auto-approve"@]);
    assert forall|i: int| 0 <= i < n implies a[i + 1] == var_token(entries[i].0, entries[i].1)
        && is_var_token(#[trigger] a[i + 1]) by {
        lemma_var_token_is_var(entries[i].0, entries[i].1);
    }
    let mid = a.subrange(1, n + 1);
    assert forall|i: int, j: int| 0 <= i < mid.len() && 0 <= j < mid.len() && i != j implies mid[i]
        != mid[j] by {
        if mid[i] == mid[j] {
            assert(mid[i] == a[i + 1]);
            assert(mid[j] == a[j + 1]);
            assert(plain_name(entries[i].0));
            assert(plain_name(entries[j].0));
            lemma_same_token_same_name(entries[i].0, entries[i].1, entries[j].0, entries[j].1);
        }
    }
    reveal_strlit("plan");
    reveal_strlit("apply");
    reveal_strlit("destroy");
    reveal_strlit("refresh");
    reveal_strlit("-auto-approve");
    lemma_not_var_token(a[0]);
    lemma_not_var_token(a[n + 1]);
    assert forall|k: Seq<char>| #[trigger] to_map(entries).contains_key(k) implies exists|i: int|
        1 <= i <= n && a[i] == var_token(k, to_map(entries)[k]) by {
        let j = choose|j: int| 0 <= j < n && entries[j].0 == k;
        assert(to_map(entries).contains_key(entries[j].0));
        assert(a[j + 1] == var_token(k, to_map(entries)[k]));
    }
}

/// For the `Output` operation the arguments end with the machine-readable
/// output flag and hold no `-var` token, whatever the entries.
pub proof fn lemma_output_args(entries: Seq<(Seq<char>, InputView)>)
    ensures
        args_of(Operation::Output, entries).last() == "-json"@,
        forall|i: int|
            0 <= i < args_of(Operation::Output, entries).len() ==> !is_var_token(
                #[trigger] args_of(Operation::Output, entries)[i],
            ),
{
    let a = args_of(Operation::Output, entries);
    assert(a =~= seq![keyword_of(Operation::Output)] + inputs_of(Operation::Output, entries)
        + flags_of(Operation::Output));
    assert(a =~= seq!["output"@, "-json"@]);
    reveal_strlit("output");
    reveal_strlit("-json");
    lemma_not_var_token(a[0]);
    lemma_not_var_token(a[1]);
}

} // verus!
