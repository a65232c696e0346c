use vstd::prelude::*;

verus! {

/// A joinable session: a world identifier and an instance identifier.
/// On the wire it travels in the composite form `<world>:<instance>`,
/// both inside a request-invite notification's `details` field and as the
/// payload of an outbound invite.
pub struct InstanceId {
    pub world: String,
    pub instance: String,
}

/// The mathematical model of an `InstanceId`.
#[verifier::ext_equal]
pub struct InstanceIdView {
    pub world: Seq<char>,
    pub instance: Seq<char>,
}

impl View for InstanceId {
    type V = InstanceIdView;

    open spec fn view(&self) -> InstanceIdView {
        InstanceIdView { world: self.world@, instance: self.instance@ }
    }
}

/// The composite wire form `<world>:<instance>`.
pub open spec fn spec_composite(v: InstanceIdView) -> Seq<char> {
    v.world + seq![':'] + v.instance
}

/// Splitting a composite string at its first `:`; nothing when the string
/// holds no `:` at all.
pub open spec fn spec_parse_composite(s: Seq<char>) -> Option<InstanceIdView>
    decreases s.len(),
{
    if s.len() == 0 {
        Option::None
    } else if s[0] == ':' {
        Option::Some(InstanceIdView { world: Seq::empty(), instance: s.drop_first() })
    } else {
        match spec_parse_composite(s.drop_first()) {
            Option::Some(v) => Option::Some(
                InstanceIdView { world: seq![s[0]] + v.world, instance: v.instance },
            ),
            Option::None => Option::None,
        }
    }
}

/// A string whose first `:` stands at index `i` parses to the part before
/// `i` as the world and the part after `i` as the instance.
pub proof fn lemma_parse_at_first_colon(s: Seq<char>, i: int)
    requires
        0 <= i < s.len(),
        s[i] == ':',
        forall|j: int| 0 <= j < i ==> s[j] != ':',
    ensures
        spec_parse_composite(s) == Option::Some(
            InstanceIdView { world: s.subrange(0, i), instance: s.subrange(i + 1, s.len() as int) },
        ),
    decreases i,
{
    if i == 0 {
        assert(s.subrange(0, 0) =~= Seq::<char>::empty());
        assert(s.drop_first() =~= s.subrange(1, s.len() as int));
    } else {
        let t = s.drop_first();
        assert(forall|j: int| 0 <= j < i - 1 ==> t[j] == s[j + 1] && t[j] != ':');
        lemma_parse_at_first_colon(t, i - 1);
        assert(seq![s[0]] + t.subrange(0, i - 1) =~= s.subrange(0, i));
        assert(t.subrange(i, t.len() as int) =~= s.subrange(i + 1, s.len() as int));
    }
}

/// A string without any `:` does not parse.
pub proof fn lemma_parse_no_colon(s: Seq<char>)
    requires
        forall|j: int| 0 <= j < s.len() ==> s[j] != ':',
    ensures
        spec_parse_composite(s) == Option::None::<InstanceIdView>,
    decreases s.len(),
{
    if s.len() > 0 {
        lemma_parse_no_colon(s.drop_first());
    }
}

/// Round trip one way: as long as the world holds no `:` of its own, parsing
/// the composite form of an instance id yields the instance id back.
pub proof fn lemma_composite_round_trip(v: InstanceIdView)
    requires
        forall|j: int| 0 <= j < v.world.len() ==> v.world[j] != ':',
    ensures
        spec_parse_composite(spec_composite(v)) == Option::Some(v),
{
    let s = spec_composite(v);
    let i = v.world.len() as int;
    assert(forall|j: int| 0 <= j < i ==> s[j] == v.world[j]);
    lemma_parse_at_first_colon(s, i);
    assert(s.subrange(0, i) =~= v.world);
    assert(s.subrange(i + 1, s.len() as int) =~= v.instance);
}

/// Round trip the other way: whenever a string parses, re-serializing the
/// parsed instance id gives the very string back.
pub proof fn lemma_parse_composite_inverse(s: Seq<char>, v: InstanceIdView)
    requires
        spec_parse_composite(s) == Option::Some(v),
    ensures
        spec_composite(v) == s,
    decreases s.len(),
{
    if s[0] == ':' {
        assert(spec_composite(v) =~= s);
    } else {
        let w = spec_parse_composite(s.drop_first())->Some_0;
        lemma_parse_composite_inverse(s.drop_first(), w);
        assert(spec_composite(v) =~= seq![s[0]] + spec_composite(w));
        assert(seq![s[0]] + s.drop_first() =~= s);
    }
}

impl InstanceId {
    /// The composite wire form `<world>:<instance>`.
    pub fn composite(&self) -> (r: String)
        ensures
            r@ == spec_composite(self@),
    {
        let mut s = self.world.clone();
        s.append(":");
        s.append(self.instance.as_str());
        proof {
            reveal_strlit(":");
            assert(":"@ =~= seq![':']);
        }
        s
    }

    /// Split a composite string at its first `:`.
    pub fn parse(s: &str) -> (r: Option<InstanceId>)
        ensures
            match r {
                Option::Some(v) => spec_parse_composite(s@) == Option::Some(v@),
                Option::None => spec_parse_composite(s@) == Option::None::<InstanceIdView>,
            },
    {
        let n = s.unicode_len();
        let mut i: usize = 0;
        while i < n
            invariant
                i <= n,
                n == s@.len(),
                forall|j: int| 0 <= j < i ==> s@[j] != ':',
            decreases n - i,
        {
            if s.get_char(i) == ':' {
                let world = s.substring_char(0, i);
                let instance = s.substring_char(i + 1, n);
                proof {
                    lemma_parse_at_first_colon(s@, i as int);
                }
                return Some(InstanceId { world: world.to_owned(), instance: instance.to_owned() });
            }
            i = i + 1;
        }
        proof {
            lemma_parse_no_colon(s@);
        }
        None
    }
}

} // verus!
