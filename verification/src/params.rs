//! Parameters as values that the user steps through with an encoder: a number in a range, or a
//! choice from a list of options. Each has a name and a short text to show.
use crate::storage::{
    label_chars, label_from_str, name_as_str, name_contents, name_from_str, option_as_str,
    option_chars, option_new, option_push, options_contents, options_get, options_len, options_new,
    options_push,
};
use crate::text::{lemma_utf8_len_push, str_eq, utf8_len};
use vstd::prelude::*;

pub use crate::param::wrapping_add;

verus! {

/// A value that the user changes in steps, with a name and a text to show.
pub trait Param {
    /// Whether `increment(n)` runs without overflow.
    spec fn can_increment(&self, n: i8) -> bool;

    /// Whether the parameter has a value to show.
    spec fn has_value(&self) -> bool;

    /// The parameter's name; a parameter without one is shown as disabled.
    fn name(&self) -> (r: &str)
        default_ensures
            r@ == "DISABLED"@,
    {
        "DISABLED"
    }

    /// Move the value `n` steps.
    fn increment(&mut self, n: i8)
        requires
            old(self).can_increment(n),
    ;

    /// The value, as shown to the user.
    fn value_str(&self) -> (r: heapless::String<10>)
        requires
            self.has_value(),
    ;

    /// The value as a number, for the parameters that hold one.
    fn value_i8(&self) -> (r: Option<i8>)
        default_ensures
            r is None,
    {
        None
    }
}

/// Something configured by parameters, that takes their values into account on request.
pub trait ParamAdapter {
    /// Take the parameters' values into account.
    fn apply(&mut self) {
    }
}

/// `v` moved into the range `min..=max`: below the range it becomes `min`, above it `max`.
pub open spec fn clamp(v: int, min: int, max: int) -> int {
    if v < min {
        min
    } else if v > max {
        max
    } else {
        v
    }
}

/// A number parameter's increments stay in its range: whatever the step, the value ends up
/// between `min` and `max` (when `min <= max`).
pub proof fn lemma_clamp_in_range(v: int, min: int, max: int)
    requires
        min <= max,
    ensures
        min <= clamp(v, min, max) <= max,
        min <= v <= max ==> clamp(v, min, max) == v,
{
}

/// A number that stays within a range: increments past either end stop at it.
#[derive(Debug)]
pub struct NumberParam {
    name: heapless::String<6>,
    val: i8,
    min: i8,
    max: i8,
}

impl NumberParam {
    /// The parameter's name.
    pub closed spec fn spec_name(self) -> Seq<char> {
        name_contents(self.name)
    }

    /// The parameter's value.
    pub closed spec fn spec_val(self) -> i8 {
        self.val
    }

    /// The lowest value that increments stop at.
    pub closed spec fn spec_min(self) -> i8 {
        self.min
    }

    /// The highest value that increments stop at.
    pub closed spec fn spec_max(self) -> i8 {
        self.max
    }

    /// A number parameter with range `min..=max`, starting at `initial` (which is not checked
    /// against the range).
    pub fn new(name: &str, min: i8, max: i8, initial: i8) -> (r: NumberParam)
        requires
            name.len() <= 6,
        ensures
            r.spec_name() == name@,
            r.spec_val() == initial,
            r.spec_min() == min,
            r.spec_max() == max,
    {
        NumberParam { name: name_from_str(name), val: initial, min, max }
    }
}

impl Param for NumberParam {
    /// Adding `n` to the value fits in an `i8`.
    open spec fn can_increment(&self, n: i8) -> bool {
        i8::MIN <= self.spec_val() + n <= i8::MAX
    }

    /// A number parameter always has a value.
    open spec fn has_value(&self) -> bool {
        true
    }

    /// The parameter's name.
    fn name(&self) -> (r: &str)
        ensures
            r@ == self.spec_name(),
    {
        name_as_str(&self.name)
    }

    /// Add `n` to the value, then bring it back into the range.
    fn increment(&mut self, n: i8)
        ensures
            final(self).spec_val() == clamp(old(self).spec_val() + n, old(self).spec_min() as int, old(self).spec_max() as int),
            final(self).spec_name() == old(self).spec_name(),
            final(self).spec_min() == old(self).spec_min(),
            final(self).spec_max() == old(self).spec_max(),
    {
        self.val = self.val + n;
        if self.val < self.min {
            self.val = self.min;
        } else if self.val > self.max {
            self.val = self.max;
        }
    }

    /// The value in decimal.
    fn value_str(&self) -> (r: heapless::String<10>)
        ensures
            label_chars(r) == crate::text::decimal(self.spec_val() as int),
    {
        crate::text::decimal_label(self.val)
    }

    /// The value.
    fn value_i8(&self) -> (r: Option<i8>)
        ensures
            r == Some(self.spec_val()),
    {
        Some(self.val)
    }
}

/// The characters that separate options: ASCII whitespace.
pub open spec fn is_ascii_whitespace(c: char) -> bool {
    c == ' ' || c == '\t' || c == '\n' || c == '\x0C' || c == '\r'
}

/// The options written in `s`: its maximal runs of characters other than ASCII whitespace, in
/// order.
pub open spec fn tokens(s: Seq<char>) -> Seq<Seq<char>>
    decreases s.len(),
{
    if s.len() == 0 {
        Seq::empty()
    } else {
        let prev = tokens(s.drop_last());
        let c = s.last();
        if is_ascii_whitespace(c) {
            prev
        } else if s.len() >= 2 && !is_ascii_whitespace(s[s.len() - 2]) {
            prev.update(prev.len() - 1, prev.last().push(c))
        } else {
            prev.push(seq![c])
        }
    }
}

/// Whether the options written in `s` can be held: at most 20 options of at most four bytes
/// (in UTF-8) each.
pub open spec fn options_fit(s: Seq<char>) -> bool {
    &&& tokens(s).len() <= 20
    &&& forall|k: int| 0 <= k < tokens(s).len() ==> utf8_len(#[trigger] tokens(s)[k]) <= 4
}

/// A string that ends in a character other than whitespace holds an option.
proof fn lemma_tokens_nonempty(s: Seq<char>)
    requires
        s.len() > 0,
        !is_ascii_whitespace(s.last()),
    ensures
        tokens(s).len() > 0,
    decreases s.len(),
{
    if s.len() >= 2 && !is_ascii_whitespace(s[s.len() - 2]) {
        lemma_tokens_nonempty(s.drop_last());
    }
}

/// Reading more of a string only adds options, or lengthens the last one.
proof fn lemma_tokens_grow(s: Seq<char>, i: int, j: int)
    requires
        0 <= i <= j <= s.len(),
    ensures
        tokens(s.take(i)).len() <= tokens(s.take(j)).len(),
        forall|k: int|
            0 <= k < tokens(s.take(i)).len() ==> utf8_len(#[trigger] tokens(s.take(i))[k]) <= utf8_len(
                tokens(s.take(j))[k],
            ),
    decreases j - i,
{
    if i < j {
        lemma_tokens_grow(s, i, j - 1);
        let a = s.take(j - 1);
        let b = s.take(j);
        assert(b.drop_last() =~= a);
        if j >= 2 && !is_ascii_whitespace(b[b.len() - 2]) {
            assert(b[b.len() - 2] == a.last());
            lemma_tokens_nonempty(a);
        }
        if tokens(a).len() > 0 {
            lemma_utf8_len_push(tokens(a).last(), b.last());
        }
        assert forall|k: int| 0 <= k < tokens(s.take(i)).len() implies utf8_len(
            #[trigger] tokens(s.take(i))[k],
        ) <= utf8_len(tokens(b)[k]) by {
            assert(utf8_len(tokens(s.take(i))[k]) <= utf8_len(tokens(a)[k]));
        }
    }
}

/// A choice from a list of options, that wraps around at either end.
#[derive(Debug)]
pub struct EnumParam {
    name: heapless::String<6>,
    options: heapless::Vec<heapless::String<4>, 20>,
    index: usize,
}

impl EnumParam {
    #[verifier::type_invariant]
    spec fn inv(self) -> bool {
        &&& options_contents(self.options).len() == 0 ==> self.index == 0
        &&& options_contents(self.options).len() > 0 ==> self.index < options_contents(self.options).len()
    }

    /// The parameter's name.
    pub closed spec fn spec_name(self) -> Seq<char> {
        name_contents(self.name)
    }

    /// The options, in order.
    pub closed spec fn spec_options(self) -> Seq<Seq<char>> {
        options_contents(self.options).map_values(|o: heapless::String<4>| option_chars(o))
    }

    /// The position of the chosen option.
    pub closed spec fn spec_index(self) -> int {
        self.index as int
    }

    /// A choice from the options written in `options_space_separated`, separated by
    /// whitespace. It starts at the first option equal to `initial`, or at the first option
    /// when there is no such option.
    #[verifier::spinoff_prover]
    #[verifier::rlimit(30)]
    pub fn new(name: &str, options_space_separated: &str, initial: Option<&str>) -> (r: EnumParam)
        requires
            name.len() <= 6,
            options_fit(options_space_separated@),
        ensures
            r.spec_name() == name@,
            r.spec_options() == tokens(options_space_separated@),
            r.spec_options().len() > 0 ==> 0 <= r.spec_index() < r.spec_options().len(),
            match initial {
                Some(x) => if exists|k: int| 0 <= k < r.spec_options().len() && #[trigger] r.spec_options()[k] == x@ {
                    0 <= r.spec_index() < r.spec_options().len() && r.spec_options()[r.spec_index()] == x@
                        && forall|k: int| 0 <= k < r.spec_index() ==> #[trigger] r.spec_options()[k] != x@
                } else {
                    r.spec_index() == 0
                },
                None => r.spec_index() == 0,
            },
    {
        let s = options_space_separated;
        let n = s.unicode_len();
        let ghost chars = s@;
        let mut options = options_new();
        let mut cur = option_new();
        let mut in_token = false;
        let mut i: usize = 0;
        proof {
            lemma_tokens_grow(chars, 0, chars.len() as int);
        }
        while i < n
            invariant
                n == chars.len(),
                chars == s@,
                0 <= i <= n,
                options_fit(chars),
                in_token == (i > 0 && !is_ascii_whitespace(chars[i - 1])),
                in_token ==> options_contents(options).map_values(|o: heapless::String<4>| option_chars(o))
                    + seq![option_chars(cur)] == tokens(chars.take(i as int)),
                !in_token ==> options_contents(options).map_values(|o: heapless::String<4>| option_chars(o))
                    == tokens(chars.take(i as int)) && option_chars(cur).len() == 0,
            decreases n - i,
        {
            let c = s.get_char(i);
            let ghost before = chars.take(i as int);
            let ghost after = chars.take(i as int + 1);
            proof {
                assert(after.drop_last() =~= before);
                assert(after.last() == c);
                lemma_tokens_grow(chars, i as int + 1, chars.len() as int);
                assert(chars.take(chars.len() as int) =~= chars);
            }
            if c == ' ' || c == '\t' || c == '\n' || c == '\x0C' || c == '\r' {
                if in_token {
                    proof {
                        lemma_tokens_grow(chars, i as int, chars.len() as int);
                    }
                    options_push(&mut options, cur);
                    cur = option_new();
                    proof {
                        assert(options_contents(options).map_values(|o: heapless::String<4>| option_chars(o))
                            =~= tokens(before));
                    }
                }
                in_token = false;
            } else {
                if in_token {
                    let ghost old_cur = option_chars(cur);
                    let ghost opts_now = options_contents(options).map_values(|o: heapless::String<4>| option_chars(o));
                    proof {
                        lemma_tokens_nonempty(before);
                        assert(after[after.len() - 2] == chars[i - 1]);
                        assert(tokens(before) == opts_now + seq![old_cur]);
                        assert(tokens(before).last() == old_cur);
                        assert(tokens(after) == tokens(before).update(tokens(before).len() - 1, old_cur.push(c)));
                        let t = tokens(after);
                        assert(t.last() == option_chars(cur).push(c));
                        assert(utf8_len(t[t.len() - 1]) <= 4);
                    }
                    option_push(&mut cur, c);
                    proof {
                        assert(option_chars(cur) == old_cur.push(c));
                        let t = tokens(before);
                        assert(t.update(t.len() - 1, old_cur.push(c)) =~= opts_now + seq![option_chars(cur)]);
                        assert(opts_now == options_contents(options).map_values(|o: heapless::String<4>| option_chars(o)));
                    }
                } else {
                    proof {
                        assert(i > 0 ==> after[after.len() - 2] == chars[i - 1]);
                        assert(tokens(after) == tokens(before).push(seq![c]));
                        lemma_utf8_len_push(option_chars(cur), c);
                    }
                    option_push(&mut cur, c);
                    proof {
                        assert(option_chars(cur) =~= seq![c]);
                        assert(options_contents(options).map_values(|o: heapless::String<4>| option_chars(o))
                            + seq![option_chars(cur)] =~= tokens(after));
                    }
                }
                in_token = true;
            }
            i = i + 1;
        }
        proof {
            assert(chars.take(n as int) =~= chars);
        }
        if in_token {
            options_push(&mut options, cur);
            proof {
                assert(options_contents(options).map_values(|o: heapless::String<4>| option_chars(o))
                    =~= tokens(chars));
            }
        }
        let ghost opts = options_contents(options).map_values(|o: heapless::String<4>| option_chars(o));
        let mut index: usize = 0;
        match initial {
            Some(x) => {
                let len = options_len(&options);
                let mut j: usize = 0;
                let mut found = false;
                while j < len && !found
                    invariant
                        len == opts.len(),
                        opts == options_contents(options).map_values(|o: heapless::String<4>| option_chars(o)),
                        0 <= j <= len,
                        found ==> j >= 1 && index == j - 1 && opts[index as int] == x@,
                        !found ==> index == 0,
                        forall|k: int| 0 <= k < j && !(found && k == j - 1) ==> #[trigger] opts[k] != x@,
                    decreases len - j,
                {
                    if str_eq(option_as_str(options_get(&options, j)), x) {
                        found = true;
                        index = j;
                    }
                    j = j + 1;
                }
                proof {
                    if found {
                        assert(0 <= index < opts.len() && opts[index as int] == x@);
                        assert(forall|k: int| 0 <= k < index ==> #[trigger] opts[k] != x@);
                    } else {
                        assert(j == len);
                        assert(forall|k: int| 0 <= k < opts.len() ==> #[trigger] opts[k] != x@);
                        assert(!(exists|k: int| 0 <= k < opts.len() && #[trigger] opts[k] == x@));
                    }
                }
            },
            None => {},
        }
        let r = EnumParam { name: name_from_str(name), options, index };
        assert(r.spec_options() == opts);
        proof {
            use_type_invariant(&r);
        }
        r
    }
}

impl Param for EnumParam {
    /// There is an option to move to.
    open spec fn can_increment(&self, n: i8) -> bool {
        self.spec_options().len() > 0
    }

    /// There is an option to show.
    open spec fn has_value(&self) -> bool {
        self.spec_options().len() > 0
    }

    /// The parameter's name.
    fn name(&self) -> (r: &str)
        ensures
            r@ == self.spec_name(),
    {
        name_as_str(&self.name)
    }

    /// Move the choice `n` options on, wrapping around past the first and last options.
    fn increment(&mut self, n: i8)
        ensures
            final(self).spec_index() == crate::param::wrapping_add_spec(
                old(self).spec_index(),
                n as int,
                old(self).spec_options().len() - 1,
            ),
            0 <= final(self).spec_index() < final(self).spec_options().len(),
            final(self).spec_options() == old(self).spec_options(),
            final(self).spec_name() == old(self).spec_name(),
    {
        proof {
            use_type_invariant(&*self);
        }
        let max = options_len(&self.options) - 1;
        proof {
            crate::param::lemma_wrapping_add_in_range(self.index as int, n as int, max as int);
            crate::arith::lemma_trunc_rem_bounds(n as int, max as int + 1);
        }
        self.index = wrapping_add(self.index as i32, n as i32, max as i32) as usize;
    }

    /// The chosen option.
    fn value_str(&self) -> (r: heapless::String<10>)
        ensures
            label_chars(r) == self.spec_options()[self.spec_index()],
    {
        proof {
            use_type_invariant(self);
        }
        label_from_str(option_as_str(options_get(&self.options, self.index)))
    }
}

} // verus!
