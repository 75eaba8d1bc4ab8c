use vstd::prelude::*;

use crate::message::ChatMessage;

verus! {

/// A line of the transcript as the contracts see it: whether it is an author
/// header, and its text.
pub type EntryModel = (bool, Seq<char>);

/// A message as the transcript sees it: author display name and body.
pub type MessageModel = (Seq<char>, Seq<char>);

/// One line of the visible transcript.
pub struct Entry {
    /// True for an author header, false for a message body.
    pub is_header: bool,
    pub text: String,
}

pub open spec fn entry_model(e: Entry) -> EntryModel {
    (e.is_header, e.text@)
}

pub open spec fn entries_model(v: Seq<Entry>) -> Seq<EntryModel> {
    v.map_values(|e: Entry| entry_model(e))
}

/// The transcript lines that one message adds, given the author rendered last
/// (`None` before the first message): a header when the author changes, then
/// the body.
pub open spec fn step(cursor: Option<Seq<char>>, author: Seq<char>, body: Seq<char>) -> Seq<
    EntryModel,
> {
    if cursor != Some(author) {
        seq![(true, author), (false, body)]
    } else {
        seq![(false, body)]
    }
}

/// The author rendered last after `msgs`, starting from `cursor`.
pub open spec fn cursor_after(cursor: Option<Seq<char>>, msgs: Seq<MessageModel>) -> Option<
    Seq<char>,
> {
    if msgs.len() == 0 {
        cursor
    } else {
        Some(msgs.last().0)
    }
}

/// The transcript lines that `msgs` add, in order, starting from `cursor`.
pub open spec fn render(cursor: Option<Seq<char>>, msgs: Seq<MessageModel>) -> Seq<EntryModel>
    decreases msgs.len(),
{
    if msgs.len() == 0 {
        seq![]
    } else {
        let prev = msgs.drop_last();
        render(cursor, prev) + step(cursor_after(cursor, prev), msgs.last().0, msgs.last().1)
    }
}

/// How many of the lines are author headers.
pub open spec fn header_count(es: Seq<EntryModel>) -> nat
    decreases es.len(),
{
    if es.len() == 0 {
        0
    } else {
        header_count(es.drop_last()) + if es.last().0 {
            1nat
        } else {
            0nat
        }
    }
}

/// How many maximal runs of consecutive messages by one author `msgs` holds.
pub open spec fn run_count(msgs: Seq<MessageModel>) -> nat
    decreases msgs.len(),
{
    if msgs.len() == 0 {
        0
    } else {
        run_count(msgs.drop_last()) + if msgs.len() == 1 || msgs[msgs.len() - 1].0 != msgs[msgs.len()
            - 2].0 {
            1nat
        } else {
            0nat
        }
    }
}

/// No two consecutive messages share an author.
pub open spec fn alternating(msgs: Seq<MessageModel>) -> bool {
    forall|i: int| 0 < i < msgs.len() ==> #[trigger] msgs[i].0 != msgs[i - 1].0
}

pub proof fn lemma_header_count_concat(a: Seq<EntryModel>, b: Seq<EntryModel>)
    ensures
        header_count(a + b) == header_count(a) + header_count(b),
    decreases b.len(),
{
    if b.len() > 0 {
        lemma_header_count_concat(a, b.drop_last());
        assert((a + b).drop_last() =~= a + b.drop_last());
    } else {
        assert(a + b =~= a);
    }
}

/// From a fresh session, the rendering of any sequence of messages holds
/// exactly one header per maximal run of messages by the same author.
pub proof fn lemma_one_header_per_run(msgs: Seq<MessageModel>)
    ensures
        header_count(render(None, msgs)) == run_count(msgs),
    decreases msgs.len(),
{
    if msgs.len() > 0 {
        let prev = msgs.drop_last();
        lemma_one_header_per_run(prev);
        let st = step(cursor_after(None, prev), msgs.last().0, msgs.last().1);
        lemma_header_count_concat(render(None, prev), st);
        if prev.len() > 0 {
            assert(prev.last() == msgs[msgs.len() - 2]);
        }
        if cursor_after(None, prev) != Some(msgs.last().0) {
            assert(st.drop_last() =~= seq![(true, msgs.last().0)]);
            assert(st.drop_last().drop_last() =~= Seq::<EntryModel>::empty());
            let d = st.drop_last();
            assert(d.last().0);
            assert(header_count(d.drop_last()) == 0);
            assert(header_count(d) == 1);
            assert(!st.last().0);
            assert(header_count(st) == 1);
        } else {
            assert(st.drop_last() =~= Seq::<EntryModel>::empty());
            assert(header_count(st.drop_last()) == 0);
            assert(!st.last().0);
        }
    }
}

/// A transcript holds exactly one header per maximal run of same-author
/// messages appended to it.
pub proof fn lemma_transcript_headers_match_runs(t: &Transcript)
    requires
        t.wf(),
    ensures
        header_count(t.lines()) == run_count(t.history()),
{
    lemma_one_header_per_run(t.history());
}

/// From a fresh session, when consecutive messages always change author,
/// every message is rendered as its author's header followed by its body.
pub proof fn lemma_alternating_all_headers(msgs: Seq<MessageModel>)
    requires
        alternating(msgs),
    ensures
        render(None, msgs).len() == 2 * msgs.len(),
        forall|i: int|
            0 <= i < msgs.len() ==> render(None, msgs)[2 * i] == (true, #[trigger] msgs[i].0)
                && render(None, msgs)[2 * i + 1] == (false, msgs[i].1),
    decreases msgs.len(),
{
    if msgs.len() > 0 {
        let prev = msgs.drop_last();
        assert forall|i: int| 0 < i < prev.len() implies #[trigger] prev[i].0 != prev[i - 1].0 by {
            assert(msgs[i].0 != msgs[i - 1].0);
        }
        lemma_alternating_all_headers(prev);
        let n = msgs.len() - 1;
        if n > 0 {
            assert(msgs[n].0 != msgs[n - 1].0);
        }
        let r = render(None, msgs);
        assert forall|i: int| 0 <= i < msgs.len() implies r[2 * i] == (true, #[trigger] msgs[i].0)
            && r[2 * i + 1] == (false, msgs[i].1) by {
            if i < n {
                assert(prev[i] == msgs[i]);
            }
        }
    }
}

/// The last author rendered; `None` until the first message.
pub struct RenderCursor {
    last_author: Option<String>,
}

impl RenderCursor {
    pub closed spec fn view(&self) -> Option<Seq<char>> {
        match self.last_author {
            Some(a) => Some(a@),
            None => None,
        }
    }

    pub fn new() -> (r: Self)
        ensures
            r.view() == None::<Seq<char>>,
    {
        RenderCursor { last_author: None }
    }

    /// Whether a message by `author` starts a new block and so gets a header.
    pub fn needs_header(&self, author: &String) -> (r: bool)
        ensures
            r == (self.view() != Some(author@)),
    {
        match &self.last_author {
            Some(a) => {
                let same = *a == *author;
                proof {
                    if !same {
                        assert(self.view() != Some(author@));
                    }
                }
                !same
            },
            None => true,
        }
    }

    pub fn set_current_author(&mut self, author: &String)
        ensures
            final(self).view() == Some(author@),
    {
        self.last_author = Some(author.clone());
    }
}

/// The visible transcript: the lines rendered so far, and the cursor that
/// groups consecutive messages of one author under one header.
pub struct Transcript {
    cursor: RenderCursor,
    entries: Vec<Entry>,
    history: Ghost<Seq<MessageModel>>,
}

impl Transcript {
    /// The lines of the transcript.
    pub closed spec fn lines(&self) -> Seq<EntryModel> {
        entries_model(self.entries@)
    }

    /// The author rendered last.
    pub closed spec fn last_author(&self) -> Option<Seq<char>> {
        self.cursor.view()
    }

    /// The messages appended so far, in order.
    pub closed spec fn history(&self) -> Seq<MessageModel> {
        self.history@
    }

    /// The transcript is exactly the rendering of its history, and the cursor
    /// names the author of the last message appended.
    pub open spec fn wf(&self) -> bool {
        &&& self.lines() == render(None, self.history())
        &&& self.last_author() == cursor_after(None, self.history())
    }

    pub fn new() -> (r: Self)
        ensures
            r.wf(),
            r.history() == Seq::<MessageModel>::empty(),
            r.lines() == Seq::<EntryModel>::empty(),
    {
        let r = Transcript { cursor: RenderCursor::new(), entries: Vec::new(), history: Ghost(Seq::empty()) };
        assert(r.lines() =~= Seq::<EntryModel>::empty());
        r
    }

    /// The lines of the transcript, in order.
    pub fn entries(&self) -> (r: &Vec<Entry>)
        ensures
            entries_model(r@) == self.lines(),
    {
        &self.entries
    }

    /// Appends one message: a header with the author's name when the author
    /// differs from the one rendered last, then the body. Returns the lines
    /// added.
    pub fn append(&mut self, author: &String, body: &String) -> (added: Vec<Entry>)
        requires
            old(self).wf(),
        ensures
            final(self).wf(),
            final(self).history() == old(self).history().push((author@, body@)),
            entries_model(added@) == step(old(self).last_author(), author@, body@),
            final(self).lines() == old(self).lines() + entries_model(added@),
            final(self).last_author() == Some(author@),
    {
        let ghost h0 = self.history@;
        let ghost c0 = self.cursor.view();
        let mut added: Vec<Entry> = Vec::new();
        if self.cursor.needs_header(author) {
            added.push(Entry { is_header: true, text: author.clone() });
        }
        added.push(Entry { is_header: false, text: body.clone() });
        assert(entries_model(added@) =~= step(c0, author@, body@));
        let mut i: usize = 0;
        while i < added.len()
            invariant
                0 <= i <= added.len(),
                entries_model(self.entries@) =~= entries_model(old(self).entries@) + entries_model(
                    added@,
                ).subrange(0, i as int),
                self.cursor == old(self).cursor,
                self.history == old(self).history,
            decreases added.len() - i,
        {
            let e = Entry { is_header: added[i].is_header, text: added[i].text.clone() };
            let ghost before = self.entries@;
            self.entries.push(e);
            assert(entries_model(self.entries@) =~= entries_model(before).push(
                entry_model(added@[i as int]),
            ));
            i = i + 1;
            assert(entries_model(added@).subrange(0, i as int) =~= entries_model(added@).subrange(
                0,
                i - 1,
            ).push(entry_model(added@[i - 1])));
        }
        assert(entries_model(added@).subrange(0, i as int) =~= entries_model(added@));
        self.cursor.set_current_author(author);
        self.history = Ghost(h0.push((author@, body@)));
        assert(self.history@.drop_last() =~= h0);
        added
    }

    /// Appends a received or locally sent message.
    pub fn append_message(&mut self, m: &ChatMessage) -> (added: Vec<Entry>)
        requires
            old(self).wf(),
        ensures
            final(self).wf(),
            final(self).history() == old(self).history().push((m.author_name@, m.body@)),
            entries_model(added@) == step(old(self).last_author(), m.author_name@, m.body@),
            final(self).lines() == old(self).lines() + entries_model(added@),
            final(self).last_author() == Some(m.author_name@),
    {
        self.append(&m.author_name, &m.body)
    }
}

} // verus!
