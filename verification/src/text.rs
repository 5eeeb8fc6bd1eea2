//! Names, qualified paths and the small pieces of text that declarations are made of.
use vstd::prelude::*;
use vstd::string::StrSliceExecFns;
use vstd::string::StringExecFns;

verus! {

/// A name is well formed when it is not empty and holds no path separator.
pub open spec fn well_formed_name(name: Seq<char>) -> bool {
    name.len() > 0 && forall|i: int| 0 <= i < name.len() ==> name[i] != '.'
}

/// The name `name` as seen from inside the scope `path`: the two joined by a
/// separator, or the bare name at the root.
pub open spec fn qualify(path: Seq<char>, name: Seq<char>) -> Seq<char> {
    if path.len() == 0 {
        name
    } else {
        path + "."@ + name
    }
}

/// The separator-joined text of a sequence of names, outermost first.
pub open spec fn dotted(names: Seq<Seq<char>>) -> Seq<char>
    decreases names.len(),
{
    if names.len() == 0 {
        Seq::empty()
    } else {
        qualify(dotted(names.drop_last()), names.last())
    }
}

/// The decimal digit `d`, for `d` below ten.
pub open spec fn digit(d: nat) -> Seq<char> {
    if d == 0 {
        "0"@
    } else if d == 1 {
        "1"@
    } else if d == 2 {
        "2"@
    } else if d == 3 {
        "3"@
    } else if d == 4 {
        "4"@
    } else if d == 5 {
        "5"@
    } else if d == 6 {
        "6"@
    } else if d == 7 {
        "7"@
    } else if d == 8 {
        "8"@
    } else {
        "9"@
    }
}

/// The decimal numeral of `n`, without leading zeros.
pub open spec fn decimal(n: nat) -> Seq<char>
    decreases n,
{
    if n < 10 {
        digit(n)
    } else {
        decimal(n / 10) + digit(n % 10)
    }
}

/// Every name of `names` is well formed.
pub open spec fn well_formed_names(names: Seq<Seq<char>>) -> bool {
    forall|i: int| 0 <= i < names.len() ==> well_formed_name(#[trigger] names[i])
}

/// A qualified name tells its parts: two paths and two well-formed names that
/// give the same qualified name are the same path and the same name.
pub proof fn lemma_qualify_injective(path: Seq<char>, name: Seq<char>, other_path: Seq<char>, other_name: Seq<char>)
    requires
        well_formed_name(name),
        well_formed_name(other_name),
        qualify(path, name) == qualify(other_path, other_name),
    ensures
        path == other_path,
        name == other_name,
{
    reveal_strlit(".");
    let text = qualify(path, name);
    let dot = "."@;
    assert(dot.len() == 1 && dot[0] == '.');
    if path.len() > 0 {
        assert(text == path + dot + name);
        assert(text[path.len() as int] == '.');
        assert forall|i: int| path.len() < i < text.len() implies text[i] != '.' by {
            assert(text[i] == name[i - path.len() - 1]);
        }
    }
    if other_path.len() > 0 {
        assert(text == other_path + dot + other_name);
        assert(text[other_path.len() as int] == '.');
        assert forall|i: int| other_path.len() < i < text.len() implies text[i] != '.' by {
            assert(text[i] == other_name[i - other_path.len() - 1]);
        }
    }
    if path.len() == 0 && other_path.len() > 0 {
        assert(name[other_path.len() as int] == '.');
    }
    if path.len() > 0 && other_path.len() == 0 {
        assert(other_name[path.len() as int] == '.');
    }
    if path.len() > 0 && other_path.len() > 0 {
        assert(path.len() == other_path.len());
        assert(path =~= text.subrange(0, path.len() as int));
        assert(other_path =~= text.subrange(0, path.len() as int));
        assert(name =~= text.subrange(path.len() as int + 1, text.len() as int));
        assert(other_name =~= text.subrange(path.len() as int + 1, text.len() as int));
    } else {
        assert(path =~= other_path);
    }
}

/// The path of at least one well-formed name is not empty.
pub proof fn lemma_dotted_not_empty(names: Seq<Seq<char>>)
    requires
        well_formed_names(names),
        names.len() > 0,
    ensures
        dotted(names).len() > 0,
{
    assert(well_formed_name(names.last()));
}

/// A path tells the names that it was joined from: two sequences of well-formed
/// names with the same path are the same sequence. So a qualified path names
/// one module, and a registry key one name in one module.
pub proof fn lemma_dotted_injective(names: Seq<Seq<char>>, others: Seq<Seq<char>>)
    requires
        well_formed_names(names),
        well_formed_names(others),
        dotted(names) == dotted(others),
    ensures
        names == others,
    decreases names.len(),
{
    if names.len() == 0 {
        if others.len() > 0 {
            lemma_dotted_not_empty(others);
        }
        assert(names =~= others);
    } else {
        lemma_dotted_not_empty(names);
        assert(others.len() > 0);
        assert(well_formed_name(names.last()));
        assert(well_formed_name(others.last()));
        lemma_qualify_injective(
            dotted(names.drop_last()),
            names.last(),
            dotted(others.drop_last()),
            others.last(),
        );
        assert forall|i: int| 0 <= i < names.drop_last().len() implies well_formed_name(
            #[trigger] names.drop_last()[i],
        ) by {
            assert(names.drop_last()[i] == names[i]);
        }
        assert forall|i: int| 0 <= i < others.drop_last().len() implies well_formed_name(
            #[trigger] others.drop_last()[i],
        ) by {
            assert(others.drop_last()[i] == others[i]);
        }
        lemma_dotted_injective(names.drop_last(), others.drop_last());
        assert(names =~= names.drop_last().push(names.last()));
        assert(others =~= others.drop_last().push(others.last()));
    }
}

/// Tells whether `name` can stand as a module name or a foreign name.
pub fn is_well_formed_name(name: &str) -> (ok: bool)
    ensures
        ok == well_formed_name(name@),
{
    let n: usize = name.unicode_len();
    if n == 0 {
        return false;
    }
    let mut i: usize = 0;
    while i < n
        invariant
            i <= n,
            n == name@.len(),
            forall|j: int| 0 <= j < i ==> name@[j] != '.',
        decreases n - i,
    {
        if name.get_char(i) == '.' {
            return false;
        }
        i += 1;
    }
    true
}

/// Joins a scope's path and a name declared in it.
pub fn qualified(path: &str, name: &str) -> (text: String)
    ensures
        text@ == qualify(path@, name@),
{
    if path.unicode_len() == 0 {
        String::from_str(name)
    } else {
        let mut text = String::from_str(path);
        text.append(".");
        text.append(name);
        text
    }
}

fn digit_text(d: usize) -> (text: &'static str)
    requires
        d < 10,
    ensures
        text@ == digit(d as nat),
{
    if d == 0 {
        "0"
    } else if d == 1 {
        "1"
    } else if d == 2 {
        "2"
    } else if d == 3 {
        "3"
    } else if d == 4 {
        "4"
    } else if d == 5 {
        "5"
    } else if d == 6 {
        "6"
    } else if d == 7 {
        "7"
    } else if d == 8 {
        "8"
    } else {
        "9"
    }
}

/// Writes `n` as a decimal numeral.
pub fn decimal_text(n: usize) -> (text: String)
    ensures
        text@ == decimal(n as nat),
    decreases n,
{
    if n < 10 {
        String::from_str(digit_text(n))
    } else {
        let mut text = decimal_text(n / 10);
        text.append(digit_text(n % 10));
        text
    }
}

} // verus!
