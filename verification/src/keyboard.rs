use vstd::prelude::*;

verus! {

/// `s` cut into consecutive rows of `n` items; the last row holds what is left.
pub open spec fn chunked<T>(s: Seq<T>, n: nat) -> Seq<Seq<T>>
    decreases s.len(),
{
    if s.len() == 0 || n == 0 {
        Seq::empty()
    } else if s.len() <= n {
        seq![s]
    } else {
        seq![s.take(n as int)] + chunked(s.skip(n as int), n)
    }
}

/// The rows of a keyboard read one after the other.
pub open spec fn flattened<T>(rows: Seq<Seq<T>>) -> Seq<T>
    decreases rows.len(),
{
    if rows.len() == 0 {
        Seq::empty()
    } else {
        rows[0] + flattened(rows.skip(1))
    }
}

/// Pairs `a[i]` with `b[i]`, up to the shorter of the two.
pub open spec fn zipped<A, B>(a: Seq<A>, b: Seq<B>) -> Seq<(A, B)> {
    Seq::new(if a.len() <= b.len() { a.len() } else { b.len() }, |i: int| (a[i], b[i]))
}

/// The characters of each string slice of a list.
pub open spec fn str_views(s: Seq<&str>) -> Seq<Seq<char>> {
    s.map_values(|x: &str| x@)
}

/// The characters of each string of a list.
pub open spec fn string_views(s: Seq<String>) -> Seq<Seq<char>> {
    s.map_values(|x: String| x@)
}

/// A button under a message: its label and the data sent back when it is pressed.
#[derive(Clone, PartialEq, Eq, Debug)]
pub struct InlineButton {
    pub text: String,
    pub data: String,
}

impl View for InlineButton {
    type V = (Seq<char>, Seq<char>);

    open spec fn view(&self) -> (Seq<char>, Seq<char>) {
        (self.text@, self.data@)
    }
}

/// Buttons under a message, row by row.
#[derive(PartialEq, Eq, Debug)]
pub struct InlineKeyboard {
    pub rows: Vec<Vec<InlineButton>>,
}

impl View for InlineKeyboard {
    type V = Seq<Seq<(Seq<char>, Seq<char>)>>;

    open spec fn view(&self) -> Seq<Seq<(Seq<char>, Seq<char>)>> {
        self.rows@.map_values(|r: Vec<InlineButton>| r@.map_values(|b: InlineButton| b@))
    }
}

/// What a reply keyboard looks like, in plain values.
pub struct ReplyKeyboardView {
    pub rows: Seq<Seq<Seq<char>>>,
    pub resize: bool,
    pub one_time: bool,
    pub request_location: bool,
}

/// A keyboard that replaces the user's keyboard; its buttons send their label.
#[derive(PartialEq, Eq, Debug)]
pub struct ReplyKeyboard {
    pub rows: Vec<Vec<String>>,
    pub resize: bool,
    pub one_time: bool,
    /// Every button asks for the user's location.
    pub request_location: bool,
}

impl View for ReplyKeyboard {
    type V = ReplyKeyboardView;

    open spec fn view(&self) -> ReplyKeyboardView {
        ReplyKeyboardView {
            rows: self.rows@.map_values(|r: Vec<String>| string_views(r@)),
            resize: self.resize,
            one_time: self.one_time,
            request_location: self.request_location,
        }
    }
}

/// The keyboard attached to a message, if any.
#[derive(PartialEq, Eq, Debug)]
pub enum Markup {
    Plain,
    Inline(InlineKeyboard),
    Reply(ReplyKeyboard),
}

pub enum MarkupView {
    Plain,
    Inline(Seq<Seq<(Seq<char>, Seq<char>)>>),
    Reply(ReplyKeyboardView),
}

impl View for Markup {
    type V = MarkupView;

    open spec fn view(&self) -> MarkupView {
        match self {
            Markup::Plain => MarkupView::Plain,
            Markup::Inline(k) => MarkupView::Inline(k@),
            Markup::Reply(k) => MarkupView::Reply(k@),
        }
    }
}

/// One step of `chunked`: the first row and the rest.
pub proof fn lemma_chunked_step<T>(s: Seq<T>, n: nat, start: int)
    requires
        n > 0,
        0 <= start < s.len(),
    ensures
        chunked(s.skip(start), n) == seq![
            s.subrange(start, if start + n <= s.len() { start + n } else { s.len() as int }),
        ] + chunked(s.skip(if start + n <= s.len() { start + n } else { s.len() as int }), n),
{
    let end = if start + n <= s.len() { start + n } else { s.len() as int };
    let rest = s.skip(start);
    if rest.len() <= n {
        assert(rest =~= s.subrange(start, end));
        assert(s.skip(end).len() == 0);
        assert(chunked(s.skip(end), n) =~= Seq::<Seq<T>>::empty());
        assert(seq![rest] + Seq::<Seq<T>>::empty() =~= seq![rest]);
    } else {
        assert(rest.take(n as int) =~= s.subrange(start, end));
        assert(rest.skip(n as int) =~= s.skip(end));
    }
}

/// Cuts labels into rows of `chunks` buttons for a reply keyboard that fits its buttons.
pub fn make_keyboard(vector: Vec<String>, chunks: usize) -> (res: ReplyKeyboard)
    requires
        chunks > 0,
    ensures
        res@.rows == chunked(string_views(vector@), chunks as nat),
        res@.resize,
        !res@.one_time,
        !res@.request_location,
{
    let ghost labels = string_views(vector@);
    let mut rows: Vec<Vec<String>> = Vec::new();
    let mut start: usize = 0;
    proof {
        assert(labels.skip(0) =~= labels);
    }
    while start < vector.len()
        invariant
            labels == string_views(vector@),
            chunks > 0,
            start <= vector@.len(),
            rows@.map_values(|r: Vec<String>| string_views(r@)) + chunked(labels.skip(start as int), chunks as nat)
                == chunked(labels, chunks as nat),
        decreases vector@.len() - start,
    {
        let end: usize = if chunks <= vector.len() - start { start + chunks } else { vector.len() };
        let mut row: Vec<String> = Vec::new();
        let mut k: usize = start;
        while k < end
            invariant
                start <= k <= end <= vector@.len(),
                row@.len() == k - start,
                forall|j: int| 0 <= j < k - start ==> #[trigger] row@[j]@ == vector@[start + j]@,
            decreases end - k,
        {
            row.push(vector[k].clone());
            k = k + 1;
        }
        proof {
            lemma_chunked_step(labels, chunks as nat, start as int);
            assert(string_views(row@) =~= labels.subrange(start as int, end as int));
            let before = rows@.map_values(|r: Vec<String>| string_views(r@));
            let after = rows@.push(row).map_values(|r: Vec<String>| string_views(r@));
            assert(after =~= before.push(string_views(row@)));
        }
        rows.push(row);
        start = end;
    }
    proof {
        assert(labels.skip(start as int).len() == 0);
        assert(rows@.map_values(|r: Vec<String>| string_views(r@)) + Seq::<Seq<Seq<char>>>::empty()
            =~= rows@.map_values(|r: Vec<String>| string_views(r@)));
    }
    ReplyKeyboard { rows, resize: true, one_time: false, request_location: false }
}

/// Pairs labels with callback data and cuts the pairs into rows of `chunks` buttons.
pub fn make_inline_keyboard(
    vector_names: Vec<&str>,
    vector_data: Vec<&str>,
    chunks: usize,
) -> (res: InlineKeyboard)
    requires
        chunks > 0,
    ensures
        res@ == chunked(zipped(str_views(vector_names@), str_views(vector_data@)), chunks as nat),
{
    let ghost pairs = zipped(str_views(vector_names@), str_views(vector_data@));
    let count: usize = if vector_names.len() <= vector_data.len() {
        vector_names.len()
    } else {
        vector_data.len()
    };
    let mut rows: Vec<Vec<InlineButton>> = Vec::new();
    let mut start: usize = 0;
    proof {
        assert(pairs.skip(0) =~= pairs);
    }
    while start < count
        invariant
            pairs == zipped(str_views(vector_names@), str_views(vector_data@)),
            count == pairs.len(),
            count <= vector_names@.len(),
            count <= vector_data@.len(),
            chunks > 0,
            start <= count,
            rows@.map_values(|r: Vec<InlineButton>| r@.map_values(|b: InlineButton| b@)) + chunked(
                pairs.skip(start as int),
                chunks as nat,
            ) == chunked(pairs, chunks as nat),
        decreases count - start,
    {
        let end: usize = if chunks <= count - start { start + chunks } else { count };
        let mut row: Vec<InlineButton> = Vec::new();
        let mut k: usize = start;
        while k < end
            invariant
                start <= k <= end <= count,
                count <= vector_names@.len(),
                count <= vector_data@.len(),
                row@.len() == k - start,
                forall|j: int|
                    0 <= j < k - start ==> (#[trigger] row@[j])@ == (
                        vector_names@[start + j]@,
                        vector_data@[start + j]@,
                    ),
            decreases end - k,
        {
            let button = InlineButton {
                text: String::from_str(vector_names[k]),
                data: String::from_str(vector_data[k]),
            };
            row.push(button);
            k = k + 1;
        }
        proof {
            lemma_chunked_step(pairs, chunks as nat, start as int);
            assert(row@.map_values(|b: InlineButton| b@) =~= pairs.subrange(start as int, end as int));
            let before = rows@.map_values(|r: Vec<InlineButton>| r@.map_values(|b: InlineButton| b@));
            let after = rows@.push(row).map_values(
                |r: Vec<InlineButton>| r@.map_values(|b: InlineButton| b@),
            );
            assert(after =~= before.push(row@.map_values(|b: InlineButton| b@)));
        }
        rows.push(row);
        start = end;
    }
    proof {
        assert(pairs.skip(start as int).len() == 0);
        assert(rows@.map_values(|r: Vec<InlineButton>| r@.map_values(|b: InlineButton| b@))
            + Seq::<Seq<(Seq<char>, Seq<char>)>>::empty() =~= rows@.map_values(
            |r: Vec<InlineButton>| r@.map_values(|b: InlineButton| b@),
        ));
    }
    InlineKeyboard { rows }
}

/// The one-button keyboard that asks for the user's location.
pub fn location_keyboard() -> (res: ReplyKeyboard)
    ensures
        res@.rows == seq![seq!["📍"@]],
        res@.resize,
        res@.one_time,
        res@.request_location,
{
    let mut row: Vec<String> = Vec::new();
    row.push(String::from_str("📍"));
    let mut rows: Vec<Vec<String>> = Vec::new();
    rows.push(row);
    proof {
        assert(string_views(rows@[0]@) =~= seq!["📍"@]);
        assert(rows@.map_values(|r: Vec<String>| string_views(r@)) =~= seq![seq!["📍"@]]);
    }
    ReplyKeyboard { rows, resize: true, one_time: true, request_location: true }
}

/// Reading the rows of a chunked list one after another gives the list back, and every row
/// holds between one and `n` items.
pub proof fn law_rows_keep_every_label<T>(s: Seq<T>, n: nat)
    requires
        n > 0,
    ensures
        flattened(chunked(s, n)) == s,
        forall|i: int|
            0 <= i < chunked(s, n).len() ==> 0 < (#[trigger] chunked(s, n)[i]).len() <= n,
    decreases s.len(),
{
    if s.len() == 0 {
        assert(flattened(chunked(s, n)) =~= s);
    } else if s.len() <= n {
        let rows = chunked(s, n);
        assert(rows.skip(1) =~= Seq::<Seq<T>>::empty());
        assert(flattened(rows.skip(1)) =~= Seq::<T>::empty());
        assert(flattened(rows) =~= s);
    } else {
        law_rows_keep_every_label(s.skip(n as int), n);
        let rows = chunked(s, n);
        assert(rows.skip(1) =~= chunked(s.skip(n as int), n));
        assert(s.take(n as int) + s.skip(n as int) =~= s);
        assert forall|i: int| 0 <= i < rows.len() implies 0 < (#[trigger] rows[i]).len() <= n by {
            if i > 0 {
                assert(rows[i] == chunked(s.skip(n as int), n)[i - 1]);
            }
        }
    }
}

}
