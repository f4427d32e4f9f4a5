use vstd::prelude::*;

verus! {

/// JSON's insignificant white space: space, tab, line feed, carriage return.
pub open spec fn is_ws(b: u8) -> bool {
    b == 0x20 || b == 0x09 || b == 0x0A || b == 0x0D
}

pub open spec fn is_digit(b: u8) -> bool {
    0x30 <= b <= 0x39
}

pub open spec fn is_hex(b: u8) -> bool {
    is_digit(b) || (0x41 <= b <= 0x46) || (0x61 <= b <= 0x66)
}

/// The characters that may follow a backslash on their own: `" \ / b f n r t`.
pub open spec fn is_simple_escape(b: u8) -> bool {
    b == 0x22 || b == 0x5C || b == 0x2F || b == 0x62 || b == 0x66 || b == 0x6E || b == 0x72
        || b == 0x74
}

/// The first index at or after `i` that is not white space.
pub open spec fn ws_end(s: Seq<u8>, i: int) -> int
    decreases s.len() - i,
{
    if 0 <= i < s.len() && is_ws(s[i]) {
        ws_end(s, i + 1)
    } else {
        i
    }
}

/// The first index at or after `i` that is not a digit.
pub open spec fn digits_end(s: Seq<u8>, i: int) -> int
    decreases s.len() - i,
{
    if 0 <= i < s.len() && is_digit(s[i]) {
        digits_end(s, i + 1)
    } else {
        i
    }
}

/// The end of a string whose opening quote stands just before `i`.
pub open spec fn string_end(s: Seq<u8>, i: int) -> Option<int>
    decreases s.len() - i,
{
    if i < 0 || i >= s.len() {
        None
    } else if s[i] == 0x22 {
        Some(i + 1)
    } else if s[i] == 0x5C {
        if i + 1 < s.len() && is_simple_escape(s[i + 1]) {
            string_end(s, i + 2)
        } else if i + 5 < s.len() && s[i + 1] == 0x75 && is_hex(s[i + 2]) && is_hex(s[i + 3])
            && is_hex(s[i + 4]) && is_hex(s[i + 5]) {
            string_end(s, i + 6)
        } else {
            None
        }
    } else if s[i] < 0x20 {
        None
    } else {
        string_end(s, i + 1)
    }
}

/// The end of the optional exponent that may start at `c`.
pub open spec fn exponent_end(s: Seq<u8>, c: int) -> Option<int> {
    if 0 <= c < s.len() && (s[c] == 0x65 || s[c] == 0x45) {
        let d = if c + 1 < s.len() && (s[c + 1] == 0x2B || s[c + 1] == 0x2D) {
            c + 2
        } else {
            c + 1
        };
        if d < s.len() && is_digit(s[d]) {
            Some(digits_end(s, d))
        } else {
            None
        }
    } else {
        Some(c)
    }
}

/// The end of the optional fraction that may start at `b`.
pub open spec fn fraction_end(s: Seq<u8>, b: int) -> Option<int> {
    if 0 <= b < s.len() && s[b] == 0x2E {
        if b + 1 < s.len() && is_digit(s[b + 1]) {
            Some(digits_end(s, b + 1))
        } else {
            None
        }
    } else {
        Some(b)
    }
}

/// The end of a number that starts at `i`.
pub open spec fn number_end(s: Seq<u8>, i: int) -> Option<int> {
    let a = if 0 <= i < s.len() && s[i] == 0x2D {
        i + 1
    } else {
        i
    };
    if 0 <= a < s.len() && s[a] == 0x30 {
        match fraction_end(s, a + 1) {
            Some(c) => exponent_end(s, c),
            None => None,
        }
    } else if 0 <= a < s.len() && 0x31 <= s[a] <= 0x39 {
        match fraction_end(s, digits_end(s, a + 1)) {
            Some(c) => exponent_end(s, c),
            None => None,
        }
    } else {
        None
    }
}

/// The end of the word `w` if it stands at `i`.
pub open spec fn word_at(s: Seq<u8>, i: int, w: Seq<u8>) -> Option<int> {
    if 0 <= i && i + w.len() <= s.len() && s.subrange(i, i + w.len()) == w {
        Some(i + w.len())
    } else {
        None
    }
}

/// The end of the value that starts at `i`.
pub open spec fn value_end(s: Seq<u8>, i: int) -> Option<int>
    decreases s.len() - i, 0nat,
{
    if i < 0 || i >= s.len() {
        None
    } else if s[i] == 0x7B {
        members(s, i + 1, true)
    } else if s[i] == 0x5B {
        elements(s, i + 1, true)
    } else if s[i] == 0x22 {
        string_end(s, i + 1)
    } else if s[i] == 0x74 {
        word_at(s, i, seq![0x74u8, 0x72, 0x75, 0x65])
    } else if s[i] == 0x66 {
        word_at(s, i, seq![0x66u8, 0x61, 0x6C, 0x73, 0x65])
    } else if s[i] == 0x6E {
        word_at(s, i, seq![0x6Eu8, 0x75, 0x6C, 0x6C])
    } else {
        number_end(s, i)
    }
}

/// The end of an array's rest, at a place where an element (or, `first`, a
/// closing bracket) may come.
pub open spec fn elements(s: Seq<u8>, i: int, first: bool) -> Option<int>
    decreases s.len() - i, 1nat,
{
    if i < 0 || i >= s.len() {
        None
    } else if is_ws(s[i]) {
        elements(s, i + 1, first)
    } else if first && s[i] == 0x5D {
        Some(i + 1)
    } else {
        match value_end(s, i) {
            Some(k) => if i < k <= s.len() {
                elements_after(s, k)
            } else {
                None
            },
            None => None,
        }
    }
}

/// The end of an array's rest, just after an element.
pub open spec fn elements_after(s: Seq<u8>, k: int) -> Option<int>
    decreases s.len() - k, 0nat,
{
    if k < 0 || k >= s.len() {
        None
    } else if is_ws(s[k]) {
        elements_after(s, k + 1)
    } else if s[k] == 0x2C {
        elements(s, k + 1, false)
    } else if s[k] == 0x5D {
        Some(k + 1)
    } else {
        None
    }
}

/// The end of an object's rest, at a place where a member (or, `first`, a
/// closing brace) may come.
pub open spec fn members(s: Seq<u8>, i: int, first: bool) -> Option<int>
    decreases s.len() - i, 1nat,
{
    if i < 0 || i >= s.len() {
        None
    } else if is_ws(s[i]) {
        members(s, i + 1, first)
    } else if first && s[i] == 0x7D {
        Some(i + 1)
    } else if s[i] == 0x22 {
        match string_end(s, i + 1) {
            Some(k) => if i < k <= s.len() {
                member_colon(s, k)
            } else {
                None
            },
            None => None,
        }
    } else {
        None
    }
}

/// The end of an object's rest, just after a member's key.
pub open spec fn member_colon(s: Seq<u8>, k: int) -> Option<int>
    decreases s.len() - k, 1nat,
{
    if k < 0 || k >= s.len() {
        None
    } else if is_ws(s[k]) {
        member_colon(s, k + 1)
    } else if s[k] == 0x3A {
        member_value(s, k + 1)
    } else {
        None
    }
}

/// The end of an object's rest, just after a member's colon.
pub open spec fn member_value(s: Seq<u8>, j: int) -> Option<int>
    decreases s.len() - j, 1nat,
{
    if j < 0 || j >= s.len() {
        None
    } else if is_ws(s[j]) {
        member_value(s, j + 1)
    } else {
        match value_end(s, j) {
            Some(e) => if j < e <= s.len() {
                members_after(s, e)
            } else {
                None
            },
            None => None,
        }
    }
}

/// The end of an object's rest, just after a member's value.
pub open spec fn members_after(s: Seq<u8>, e: int) -> Option<int>
    decreases s.len() - e, 0nat,
{
    if e < 0 || e >= s.len() {
        None
    } else if is_ws(s[e]) {
        members_after(s, e + 1)
    } else if s[e] == 0x2C {
        members(s, e + 1, false)
    } else if s[e] == 0x7D {
        Some(e + 1)
    } else {
        None
    }
}

/// Whether the bytes are one JSON value (RFC 8259), with white space around it.
pub open spec fn is_json(s: Seq<u8>) -> bool {
    match value_end(s, ws_end(s, 0)) {
        Some(e) => ws_end(s, e) == s.len(),
        None => false,
    }
}

/// Whether an executable end position is the given abstract one.
pub open spec fn agrees_opt(r: Option<usize>, o: Option<int>) -> bool {
    match r {
        Some(k) => o == Some(k as int),
        None => o is None,
    }
}

fn ws_b(b: u8) -> (r: bool)
    ensures
        r == is_ws(b),
{
    b == 0x20 || b == 0x09 || b == 0x0A || b == 0x0D
}

fn digit_b(b: u8) -> (r: bool)
    ensures
        r == is_digit(b),
{
    0x30 <= b && b <= 0x39
}

fn hex_b(b: u8) -> (r: bool)
    ensures
        r == is_hex(b),
{
    (0x30 <= b && b <= 0x39) || (0x41 <= b && b <= 0x46) || (0x61 <= b && b <= 0x66)
}

fn skip_ws(s: &[u8], i: usize) -> (r: usize)
    requires
        i <= s@.len(),
    ensures
        r == ws_end(s@, i as int),
        i <= r <= s@.len(),
{
    let mut j = i;
    while j < s.len() && ws_b(s[j])
        invariant
            i <= j <= s@.len(),
            ws_end(s@, i as int) == ws_end(s@, j as int),
        decreases s@.len() - j,
    {
        j = j + 1;
    }
    j
}

fn skip_digits(s: &[u8], i: usize) -> (r: usize)
    requires
        i <= s@.len(),
    ensures
        r == digits_end(s@, i as int),
        i <= r <= s@.len(),
{
    let mut j = i;
    while j < s.len() && digit_b(s[j])
        invariant
            i <= j <= s@.len(),
            digits_end(s@, i as int) == digits_end(s@, j as int),
        decreases s@.len() - j,
    {
        j = j + 1;
    }
    j
}

fn string_exec(s: &[u8], i: usize) -> (r: Option<usize>)
    requires
        i <= s@.len(),
    ensures
        agrees_opt(r, string_end(s@, i as int)),
        r matches Some(k) ==> i < k <= s@.len(),
{
    let mut j = i;
    while j < s.len()
        invariant
            i <= j <= s@.len(),
            string_end(s@, i as int) == string_end(s@, j as int),
        decreases s@.len() - j,
    {
        let b = s[j];
        if b == 0x22 {
            return Some(j + 1);
        } else if b == 0x5C {
            if s.len() - j > 1 && (s[j + 1] == 0x22 || s[j + 1] == 0x5C || s[j + 1] == 0x2F || s[j
                + 1] == 0x62 || s[j + 1] == 0x66 || s[j + 1] == 0x6E || s[j + 1] == 0x72 || s[j + 1]
                == 0x74) {
                j = j + 2;
            } else if s.len() - j > 5 && s[j + 1] == 0x75 && hex_b(s[j + 2]) && hex_b(s[j + 3])
                && hex_b(s[j + 4]) && hex_b(s[j + 5]) {
                j = j + 6;
            } else {
                return None;
            }
        } else if b < 0x20 {
            return None;
        } else {
            j = j + 1;
        }
    }
    None
}

fn fraction_exec(s: &[u8], b: usize) -> (r: Option<usize>)
    requires
        b <= s@.len(),
    ensures
        agrees_opt(r, fraction_end(s@, b as int)),
        r matches Some(k) ==> b <= k <= s@.len(),
{
    if b < s.len() && s[b] == 0x2E {
        if b + 1 < s.len() && digit_b(s[b + 1]) {
            Some(skip_digits(s, b + 1))
        } else {
            None
        }
    } else {
        Some(b)
    }
}

fn exponent_exec(s: &[u8], c: usize) -> (r: Option<usize>)
    requires
        c <= s@.len(),
    ensures
        agrees_opt(r, exponent_end(s@, c as int)),
        r matches Some(k) ==> c <= k <= s@.len(),
{
    if c < s.len() && (s[c] == 0x65 || s[c] == 0x45) {
        let d = if c + 1 < s.len() && (s[c + 1] == 0x2B || s[c + 1] == 0x2D) {
            c + 2
        } else {
            c + 1
        };
        if d < s.len() && digit_b(s[d]) {
            Some(skip_digits(s, d))
        } else {
            None
        }
    } else {
        Some(c)
    }
}

fn number_exec(s: &[u8], i: usize) -> (r: Option<usize>)
    requires
        i <= s@.len(),
    ensures
        agrees_opt(r, number_end(s@, i as int)),
        r matches Some(k) ==> i < k <= s@.len(),
{
    let a = if i < s.len() && s[i] == 0x2D {
        i + 1
    } else {
        i
    };
    let b = if a < s.len() && s[a] == 0x30 {
        a + 1
    } else if a < s.len() && 0x31 <= s[a] && s[a] <= 0x39 {
        skip_digits(s, a + 1)
    } else {
        return None;
    };
    match fraction_exec(s, b) {
        Some(c) => exponent_exec(s, c),
        None => None,
    }
}

fn word_exec(s: &[u8], i: usize, w: &Vec<u8>) -> (r: Option<usize>)
    requires
        i <= s@.len(),
    ensures
        agrees_opt(r, word_at(s@, i as int, w@)),
{
    if w.len() > s.len() - i {
        return None;
    }
    let n = s.len();
    let mut k: usize = 0;
    while k < w.len()
        invariant
            n == s@.len(),
            i + w@.len() <= s@.len(),
            i <= s@.len(),
            k <= w@.len(),
            forall|m: int| 0 <= m < k ==> s@[i + m] == w@[m],
        decreases w@.len() - k,
    {
        assert(i + k < s@.len());
        if s[i + k] != w[k] {
            assert(s@.subrange(i as int, i + w@.len())[k as int] != w@[k as int]);
            return None;
        }
        k = k + 1;
    }
    assert(s@.subrange(i as int, i + w@.len()) =~= w@);
    Some(i + w.len())
}

fn value_exec(s: &[u8], i: usize) -> (r: Option<usize>)
    requires
        i <= s@.len(),
    ensures
        agrees_opt(r, value_end(s@, i as int)),
        r matches Some(k) ==> i < k <= s@.len(),
    decreases s@.len() - i, 0nat,
{
    if i >= s.len() {
        return None;
    }
    let b = s[i];
    if b == 0x7B {
        members_exec(s, i + 1, true)
    } else if b == 0x5B {
        elements_exec(s, i + 1, true)
    } else if b == 0x22 {
        string_exec(s, i + 1)
    } else if b == 0x74 {
        let w = vec![0x74u8, 0x72, 0x75, 0x65];
        assert(w@ =~= seq![0x74u8, 0x72, 0x75, 0x65]);
        word_exec(s, i, &w)
    } else if b == 0x66 {
        let w = vec![0x66u8, 0x61, 0x6C, 0x73, 0x65];
        assert(w@ =~= seq![0x66u8, 0x61, 0x6C, 0x73, 0x65]);
        word_exec(s, i, &w)
    } else if b == 0x6E {
        let w = vec![0x6Eu8, 0x75, 0x6C, 0x6C];
        assert(w@ =~= seq![0x6Eu8, 0x75, 0x6C, 0x6C]);
        word_exec(s, i, &w)
    } else {
        number_exec(s, i)
    }
}

fn elements_exec(s: &[u8], i: usize, first: bool) -> (r: Option<usize>)
    requires
        i <= s@.len(),
    ensures
        agrees_opt(r, elements(s@, i as int, first)),
        r matches Some(k) ==> i < k <= s@.len(),
    decreases s@.len() - i, 1nat,
{
    let mut p = i;
    let mut fst = first;
    loop
        invariant
            i <= p <= s@.len(),
            elements(s@, i as int, first) == elements(s@, p as int, fst),
        decreases s@.len() - p,
    {
        let ghost p0 = p;
        while p < s.len() && ws_b(s[p])
            invariant
                p0 <= p,
                i <= p <= s@.len(),
                elements(s@, i as int, first) == elements(s@, p as int, fst),
            decreases s@.len() - p,
        {
            p = p + 1;
        }
        if p >= s.len() {
            return None;
        }
        if fst && s[p] == 0x5D {
            return Some(p + 1);
        }
        let k = match value_exec(s, p) {
            Some(k) => k,
            None => {
                return None;
            },
        };
        let mut q = k;
        while q < s.len() && ws_b(s[q])
            invariant
                k <= q <= s@.len(),
                elements_after(s@, k as int) == elements_after(s@, q as int),
            decreases s@.len() - q,
        {
            q = q + 1;
        }
        if q < s.len() && s[q] == 0x2C {
            p = q + 1;
            fst = false;
        } else if q < s.len() && s[q] == 0x5D {
            return Some(q + 1);
        } else {
            return None;
        }
    }
}

fn members_exec(s: &[u8], i: usize, first: bool) -> (r: Option<usize>)
    requires
        i <= s@.len(),
    ensures
        agrees_opt(r, members(s@, i as int, first)),
        r matches Some(k) ==> i < k <= s@.len(),
    decreases s@.len() - i, 1nat,
{
    let mut p = i;
    let mut fst = first;
    loop
        invariant
            i <= p <= s@.len(),
            members(s@, i as int, first) == members(s@, p as int, fst),
        decreases s@.len() - p,
    {
        let ghost p0 = p;
        while p < s.len() && ws_b(s[p])
            invariant
                p0 <= p,
                i <= p <= s@.len(),
                members(s@, i as int, first) == members(s@, p as int, fst),
            decreases s@.len() - p,
        {
            p = p + 1;
        }
        if p >= s.len() {
            return None;
        }
        if fst && s[p] == 0x7D {
            return Some(p + 1);
        }
        if s[p] != 0x22 {
            return None;
        }
        let k = match string_exec(s, p + 1) {
            Some(k) => k,
            None => {
                return None;
            },
        };
        let mut c = k;
        while c < s.len() && ws_b(s[c])
            invariant
                k <= c <= s@.len(),
                member_colon(s@, k as int) == member_colon(s@, c as int),
            decreases s@.len() - c,
        {
            c = c + 1;
        }
        if c >= s.len() || s[c] != 0x3A {
            return None;
        }
        let mut j = c + 1;
        while j < s.len() && ws_b(s[j])
            invariant
                c + 1 <= j <= s@.len(),
                member_value(s@, c + 1) == member_value(s@, j as int),
            decreases s@.len() - j,
        {
            j = j + 1;
        }
        if j >= s.len() {
            return None;
        }
        let e = match value_exec(s, j) {
            Some(e) => e,
            None => {
                return None;
            },
        };
        let mut q = e;
        while q < s.len() && ws_b(s[q])
            invariant
                e <= q <= s@.len(),
                members_after(s@, e as int) == members_after(s@, q as int),
            decreases s@.len() - q,
        {
            q = q + 1;
        }
        if q < s.len() && s[q] == 0x2C {
            p = q + 1;
            fst = false;
        } else if q < s.len() && s[q] == 0x7D {
            return Some(q + 1);
        } else {
            return None;
        }
    }
}

/// Whether the bytes are one well-formed JSON value with white space around it.
pub fn check_json(s: &[u8]) -> (r: bool)
    ensures
        r == is_json(s@),
{
    let a = skip_ws(s, 0);
    match value_exec(s, a) {
        Some(e) => skip_ws(s, e) == s.len(),
        None => false,
    }
}

} // verus!
