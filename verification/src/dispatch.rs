use vstd::prelude::*;

verus! {

/// A caller-supplied argument value, as the dispatcher sees it: either JSON
/// text, or some other JSON shape that no declared property accepts. What a
/// non-text value holds is never consulted, so it is not modeled.
pub enum ArgValue {
    Text(String),
    Other,
}

impl ArgValue {
    /// The characters of a text value; the empty sequence otherwise.
    pub open spec fn chars(self) -> Seq<char> {
        match self {
            ArgValue::Text(s) => s@,
            ArgValue::Other => Seq::empty(),
        }
    }
}

/// One key/value pair of the caller's argument mapping. The mapping arrives
/// from a JSON object, so keys are unique in practice; lookups nonetheless
/// take the first occurrence, which makes them well defined on any sequence.
pub struct ArgEntry {
    pub key: String,
    pub value: ArgValue,
}

/// The value under `key`: that of its first occurrence, if any.
pub open spec fn arg_lookup(args: Seq<ArgEntry>, key: Seq<char>) -> Option<ArgValue>
    decreases args.len(),
{
    if args.len() == 0 {
        None
    } else if args[0].key@ == key {
        Some(args[0].value)
    } else {
        arg_lookup(args.subrange(1, args.len() as int), key)
    }
}

/// Whether the argument mapping parses as the expected shape: a text `city`,
/// and — if a `sidenote` is given at all — a text `sidenote`. Fields beyond
/// the declared schema are ignored.
pub open spec fn args_parse(args: Seq<ArgEntry>) -> bool {
    &&& arg_lookup(args, "city"@) matches Some(v) && v is Text
    &&& match arg_lookup(args, "sidenote"@) {
        None => true,
        Some(v) => v is Text,
    }
}

/// Whether the caller supplied a `sidenote` at all.
pub open spec fn sidenote_present(args: Seq<ArgEntry>) -> bool {
    arg_lookup(args, "sidenote"@) is Some
}

/// The location text of a mapping that parses.
pub open spec fn city_chars(args: Seq<ArgEntry>) -> Seq<char> {
    match arg_lookup(args, "city"@) {
        Some(v) => v.chars(),
        None => Seq::empty(),
    }
}

/// The auxiliary note text of a mapping that parses with a `sidenote`.
pub open spec fn sidenote_chars(args: Seq<ArgEntry>) -> Seq<char> {
    match arg_lookup(args, "sidenote"@) {
        Some(v) => v.chars(),
        None => Seq::empty(),
    }
}

/// The first entry under `key`, as `arg_lookup` defines it.
pub fn find_arg<'a>(args: &'a Vec<ArgEntry>, key: &str) -> (r: Option<&'a ArgValue>)
    ensures
        match r {
            Some(v) => arg_lookup(args@, key@) == Some(*v),
            None => arg_lookup(args@, key@) is None,
        },
{
    let key_string = String::from_str(key);
    let n = args.len();
    let mut i: usize = 0;
    proof {
        assert(args@.subrange(0, n as int) =~= args@);
    }
    while i < n
        invariant
            n == args@.len(),
            i <= n,
            key_string@ == key@,
            arg_lookup(args@, key@) == arg_lookup(args@.subrange(i as int, n as int), key@),
        decreases n - i,
    {
        let hit = args[i].key.eq(&key_string);
        proof {
            let tail = args@.subrange(i as int, n as int);
            assert(tail.len() > 0);
            assert(tail[0] == args@[i as int]);
            assert(tail.subrange(1, tail.len() as int) =~= args@.subrange(i + 1, n as int));
        }
        if hit {
            return Some(&args[i].value);
        }
        i = i + 1;
    }
    proof {
        assert(args@.subrange(n as int, n as int).len() == 0);
    }
    None
}

} // verus!
