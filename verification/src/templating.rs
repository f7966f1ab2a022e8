//! Notification templates: JSON documents whose texts are templates of their own.
//! Rendering one renders each of its texts and keeps everything else.
use vstd::prelude::*;

verus! {

/// A JSON document, its numbers kept as written.
#[derive(Debug)]
pub enum TemplateValue {
    Null,
    Bool(bool),
    Number(String),
    Text(String),
    Array(Vec<TemplateValue>),
    Object(Vec<(String, TemplateValue)>),
}

/// The texts of a document, in the order in which they are written.
pub open spec fn texts_of(t: TemplateValue) -> Seq<Seq<char>>
    decreases t,
{
    match t {
        TemplateValue::Text(s) => seq![s@],
        TemplateValue::Array(items) => texts_of_items(items@),
        TemplateValue::Object(entries) => texts_of_entries(entries@),
        _ => Seq::empty(),
    }
}

pub open spec fn texts_of_items(items: Seq<TemplateValue>) -> Seq<Seq<char>>
    decreases items,
{
    if items.len() == 0 {
        Seq::empty()
    } else {
        texts_of(items[0]) + texts_of_items(items.subrange(1, items.len() as int))
    }
}

pub open spec fn texts_of_entries(entries: Seq<(String, TemplateValue)>) -> Seq<Seq<char>>
    decreases entries,
{
    if entries.len() == 0 {
        Seq::empty()
    } else {
        texts_of(entries[0].1) + texts_of_entries(entries.subrange(1, entries.len() as int))
    }
}

/// The texts of some strings.
pub open spec fn views(strings: Seq<String>) -> Seq<Seq<char>> {
    strings.map_values(|s: String| s@)
}

/// `b` is `a` with other texts: the same kinds of values, numbers and flags, the
/// same lengths of arrays, and the same keys of objects in the same order.
pub open spec fn same_shape(a: TemplateValue, b: TemplateValue) -> bool
    decreases a,
{
    match a {
        TemplateValue::Null => b is Null,
        TemplateValue::Bool(x) => b == TemplateValue::Bool(x),
        TemplateValue::Number(x) => b matches TemplateValue::Number(y) && x@ == y@,
        TemplateValue::Text(_) => b is Text,
        TemplateValue::Array(xs) => b matches TemplateValue::Array(ys) && same_shape_items(xs@, ys@),
        TemplateValue::Object(xs) => b matches TemplateValue::Object(ys) && same_shape_entries(xs@, ys@),
    }
}

pub open spec fn same_shape_items(xs: Seq<TemplateValue>, ys: Seq<TemplateValue>) -> bool
    decreases xs,
{
    &&& xs.len() == ys.len()
    &&& xs.len() > 0 ==> {
        &&& same_shape(xs[0], ys[0])
        &&& same_shape_items(xs.subrange(1, xs.len() as int), ys.subrange(1, ys.len() as int))
    }
}

pub open spec fn same_shape_entries(xs: Seq<(String, TemplateValue)>, ys: Seq<(String, TemplateValue)>) -> bool
    decreases xs,
{
    &&& xs.len() == ys.len()
    &&& xs.len() > 0 ==> {
        &&& xs[0].0@ == ys[0].0@
        &&& same_shape(xs[0].1, ys[0].1)
        &&& same_shape_entries(xs.subrange(1, xs.len() as int), ys.subrange(1, ys.len() as int))
    }
}

proof fn lemma_texts_of_items_push(xs: Seq<TemplateValue>, x: TemplateValue)
    ensures
        texts_of_items(xs.push(x)) == texts_of_items(xs) + texts_of(x),
    decreases xs.len(),
{
    if xs.len() == 0 {
        assert(xs.push(x).subrange(1, 1) =~= Seq::<TemplateValue>::empty());
        assert(texts_of_items(xs.push(x)) =~= texts_of(x) + texts_of_items(Seq::<TemplateValue>::empty()));
        assert(texts_of_items(xs.push(x)) =~= texts_of_items(xs) + texts_of(x));
    } else {
        let rest = xs.subrange(1, xs.len() as int);
        assert(xs.push(x).subrange(1, xs.len() + 1int) =~= rest.push(x));
        lemma_texts_of_items_push(rest, x);
        assert(texts_of_items(xs.push(x)) =~= texts_of_items(xs) + texts_of(x));
    }
}

proof fn lemma_texts_of_entries_push(xs: Seq<(String, TemplateValue)>, x: (String, TemplateValue))
    ensures
        texts_of_entries(xs.push(x)) == texts_of_entries(xs) + texts_of(x.1),
    decreases xs.len(),
{
    if xs.len() == 0 {
        assert(xs.push(x).subrange(1, 1) =~= Seq::<(String, TemplateValue)>::empty());
        assert(texts_of_entries(xs.push(x)) =~= texts_of(x.1) + texts_of_entries(Seq::<(String, TemplateValue)>::empty()));
        assert(texts_of_entries(xs.push(x)) =~= texts_of_entries(xs) + texts_of(x.1));
    } else {
        let rest = xs.subrange(1, xs.len() as int);
        assert(xs.push(x).subrange(1, xs.len() + 1int) =~= rest.push(x));
        lemma_texts_of_entries_push(rest, x);
        assert(texts_of_entries(xs.push(x)) =~= texts_of_entries(xs) + texts_of(x.1));
    }
}

proof fn lemma_same_shape_items_push(xs: Seq<TemplateValue>, ys: Seq<TemplateValue>, x: TemplateValue, y: TemplateValue)
    requires
        same_shape_items(xs, ys),
        same_shape(x, y),
    ensures
        same_shape_items(xs.push(x), ys.push(y)),
    decreases xs.len(),
{
    if xs.len() > 0 {
        let xr = xs.subrange(1, xs.len() as int);
        let yr = ys.subrange(1, ys.len() as int);
        assert(xs.push(x).subrange(1, xs.len() + 1int) =~= xr.push(x));
        assert(ys.push(y).subrange(1, ys.len() + 1int) =~= yr.push(y));
        lemma_same_shape_items_push(xr, yr, x, y);
        assert(xs.push(x)[0] == xs[0] && ys.push(y)[0] == ys[0]);
    } else {
        assert(xs.push(x).subrange(1, 1) =~= Seq::<TemplateValue>::empty());
        assert(ys.push(y).subrange(1, 1) =~= Seq::<TemplateValue>::empty());
        assert(same_shape_items(Seq::<TemplateValue>::empty(), Seq::<TemplateValue>::empty()));
        assert(xs.push(x)[0] == x && ys.push(y)[0] == y);
    }
}

proof fn lemma_same_shape_entries_push(
    xs: Seq<(String, TemplateValue)>,
    ys: Seq<(String, TemplateValue)>,
    x: (String, TemplateValue),
    y: (String, TemplateValue),
)
    requires
        same_shape_entries(xs, ys),
        x.0@ == y.0@,
        same_shape(x.1, y.1),
    ensures
        same_shape_entries(xs.push(x), ys.push(y)),
    decreases xs.len(),
{
    if xs.len() > 0 {
        let xr = xs.subrange(1, xs.len() as int);
        let yr = ys.subrange(1, ys.len() as int);
        assert(xs.push(x).subrange(1, xs.len() + 1int) =~= xr.push(x));
        assert(ys.push(y).subrange(1, ys.len() + 1int) =~= yr.push(y));
        lemma_same_shape_entries_push(xr, yr, x, y);
        assert(xs.push(x)[0] == xs[0] && ys.push(y)[0] == ys[0]);
    } else {
        assert(xs.push(x).subrange(1, 1) =~= Seq::<(String, TemplateValue)>::empty());
        assert(ys.push(y).subrange(1, 1) =~= Seq::<(String, TemplateValue)>::empty());
        assert(same_shape_entries(Seq::<(String, TemplateValue)>::empty(), Seq::<(String, TemplateValue)>::empty()));
        assert(xs.push(x)[0] == x && ys.push(y)[0] == y);
    }
}

/// Appends the texts of `t` to `out`.
fn push_texts(t: &TemplateValue, out: &mut Vec<String>)
    ensures
        views(final(out)@) == views(old(out)@) + texts_of(*t),
    decreases t,
{
    match t {
        TemplateValue::Text(s) => {
            let ghost before = views(out@);
            out.push(s.clone());
            assert(views(out@) =~= before + texts_of(*t));
        },
        TemplateValue::Array(items) => {
            let ghost start = views(out@);
            let mut i: usize = 0;
            while i < items.len()
                invariant
                    i <= items@.len(),
                    *t is Array,
                    (*t)->Array_0 == *items,
                    views(out@) == start + texts_of_items(items@.take(i as int)),
                decreases items@.len() - i,
            {
                proof {
                    lemma_texts_of_items_push(items@.take(i as int), items@[i as int]);
                    assert(items@.take(i + 1) =~= items@.take(i as int).push(items@[i as int]));
                }
                proof {
                    assert(decreases_to!(*t => (*t)->Array_0));
                    assert(decreases_to!(*items => items@));
                    assert(decreases_to!(items@ => items@[i as int]));
                    assert(decreases_to!(*t => items@[i as int]));
                }
                push_texts(&items[i], out);
                i = i + 1;
            }
            assert(items@.take(i as int) =~= items@);
        },
        TemplateValue::Object(entries) => {
            let ghost start = views(out@);
            let mut i: usize = 0;
            while i < entries.len()
                invariant
                    i <= entries@.len(),
                    *t is Object,
                    (*t)->Object_0 == *entries,
                    views(out@) == start + texts_of_entries(entries@.take(i as int)),
                decreases entries@.len() - i,
            {
                proof {
                    lemma_texts_of_entries_push(entries@.take(i as int), entries@[i as int]);
                    assert(entries@.take(i + 1) =~= entries@.take(i as int).push(entries@[i as int]));
                }
                proof {
                    assert(decreases_to!(*t => (*t)->Object_0));
                    assert(decreases_to!(*entries => entries@));
                    assert(decreases_to!(entries@ => entries@[i as int]));
                    assert(decreases_to!(entries@[i as int] => entries@[i as int].1));
                    assert(decreases_to!(*t => entries@[i as int].1));
                }
                push_texts(&entries[i].1, out);
                i = i + 1;
            }
            assert(entries@.take(i as int) =~= entries@);
        },
        _ => {
            assert(views(out@) =~= views(out@) + texts_of(*t));
        },
    }
}

/// The texts of a template, in the order in which they are written: each is to be
/// rendered on its own.
pub fn template_texts(t: &TemplateValue) -> (texts: Vec<String>)
    ensures
        views(texts@) == texts_of(*t),
{
    let mut texts: Vec<String> = Vec::new();
    push_texts(t, &mut texts);
    assert(views(texts@) =~= Seq::<Seq<char>>::empty() + texts_of(*t));
    texts
}

proof fn lemma_texts_of_items_append(a: Seq<TemplateValue>, b: Seq<TemplateValue>)
    ensures
        texts_of_items(a + b) == texts_of_items(a) + texts_of_items(b),
    decreases b.len(),
{
    if b.len() == 0 {
        assert(a + b =~= a);
        assert(texts_of_items(a) + texts_of_items(b) =~= texts_of_items(a));
    } else {
        let init = b.drop_last();
        lemma_texts_of_items_append(a, init);
        assert(a + b =~= (a + init).push(b.last()));
        assert(b =~= init.push(b.last()));
        lemma_texts_of_items_push(a + init, b.last());
        lemma_texts_of_items_push(init, b.last());
        assert(texts_of_items(a + b) =~= texts_of_items(a) + texts_of_items(b));
    }
}

proof fn lemma_texts_of_entries_append(a: Seq<(String, TemplateValue)>, b: Seq<(String, TemplateValue)>)
    ensures
        texts_of_entries(a + b) == texts_of_entries(a) + texts_of_entries(b),
    decreases b.len(),
{
    if b.len() == 0 {
        assert(a + b =~= a);
        assert(texts_of_entries(a) + texts_of_entries(b) =~= texts_of_entries(a));
    } else {
        let init = b.drop_last();
        lemma_texts_of_entries_append(a, init);
        assert(a + b =~= (a + init).push(b.last()));
        assert(b =~= init.push(b.last()));
        lemma_texts_of_entries_push(a + init, b.last());
        lemma_texts_of_entries_push(init, b.last());
        assert(texts_of_entries(a + b) =~= texts_of_entries(a) + texts_of_entries(b));
    }
}

/// `t` with its texts replaced, in order, by the rendered texts from position `pos`
/// on, and the position after the last one used.
fn fill_at(t: &TemplateValue, rendered: &[String], pos: usize) -> (filled: (TemplateValue, usize))
    requires
        pos + texts_of(*t).len() <= rendered@.len(),
    ensures
        filled.1 == pos + texts_of(*t).len(),
        same_shape(*t, filled.0),
        texts_of(filled.0) == views(rendered@).subrange(pos as int, filled.1 as int),
    decreases t,
{
    match t {
        TemplateValue::Null => {
            assert(views(rendered@).subrange(pos as int, pos as int) =~= Seq::<Seq<char>>::empty());
            (TemplateValue::Null, pos)
        },
        TemplateValue::Bool(b) => {
            assert(views(rendered@).subrange(pos as int, pos as int) =~= Seq::<Seq<char>>::empty());
            (TemplateValue::Bool(*b), pos)
        },
        TemplateValue::Number(n) => {
            assert(views(rendered@).subrange(pos as int, pos as int) =~= Seq::<Seq<char>>::empty());
            (TemplateValue::Number(n.clone()), pos)
        },
        TemplateValue::Text(_) => {
            let text = rendered[pos].clone();
            assert(views(rendered@).subrange(pos as int, pos + 1) =~= seq![text@]);
            (TemplateValue::Text(text), pos + 1)
        },
        TemplateValue::Array(items) => {
            let mut filled: Vec<TemplateValue> = Vec::new();
            let mut cur: usize = pos;
            let mut i: usize = 0;
            while i < items.len()
                invariant
                    i <= items@.len(),
                    *t is Array,
                    (*t)->Array_0 == *items,
                    pos + texts_of_items(items@).len() <= rendered@.len(),
                    cur == pos + texts_of_items(items@.take(i as int)).len(),
                    same_shape_items(items@.take(i as int), filled@),
                    texts_of_items(filled@) == views(rendered@).subrange(pos as int, cur as int),
                decreases items@.len() - i,
            {
                proof {
                    lemma_texts_of_items_push(items@.take(i as int), items@[i as int]);
                    assert(items@.take(i + 1) =~= items@.take(i as int).push(items@[i as int]));
                    lemma_texts_of_items_append(items@.take(i + 1), items@.skip(i + 1));
                    assert(items@.take(i + 1) + items@.skip(i + 1) =~= items@);
                    assert(decreases_to!(*t => (*t)->Array_0));
                    assert(decreases_to!(*items => items@));
                    assert(decreases_to!(items@ => items@[i as int]));
                }
                let (item, next) = fill_at(&items[i], rendered, cur);
                let ghost before = filled@;
                proof {
                    lemma_same_shape_items_push(items@.take(i as int), before, items@[i as int], item);
                    lemma_texts_of_items_push(before, item);
                }
                filled.push(item);
                proof {
                    assert(views(rendered@).subrange(pos as int, next as int) =~= views(rendered@).subrange(pos as int, cur as int)
                        + views(rendered@).subrange(cur as int, next as int));
                }
                cur = next;
                i = i + 1;
            }
            assert(items@.take(i as int) =~= items@);
            (TemplateValue::Array(filled), cur)
        },
        TemplateValue::Object(entries) => {
            let mut filled: Vec<(String, TemplateValue)> = Vec::new();
            let mut cur: usize = pos;
            let mut i: usize = 0;
            while i < entries.len()
                invariant
                    i <= entries@.len(),
                    *t is Object,
                    (*t)->Object_0 == *entries,
                    pos + texts_of_entries(entries@).len() <= rendered@.len(),
                    cur == pos + texts_of_entries(entries@.take(i as int)).len(),
                    same_shape_entries(entries@.take(i as int), filled@),
                    texts_of_entries(filled@) == views(rendered@).subrange(pos as int, cur as int),
                decreases entries@.len() - i,
            {
                proof {
                    lemma_texts_of_entries_push(entries@.take(i as int), entries@[i as int]);
                    assert(entries@.take(i + 1) =~= entries@.take(i as int).push(entries@[i as int]));
                    lemma_texts_of_entries_append(entries@.take(i + 1), entries@.skip(i + 1));
                    assert(entries@.take(i + 1) + entries@.skip(i + 1) =~= entries@);
                    assert(decreases_to!(*t => (*t)->Object_0));
                    assert(decreases_to!(*entries => entries@));
                    assert(decreases_to!(entries@ => entries@[i as int]));
                    assert(decreases_to!(entries@[i as int] => entries@[i as int].1));
                }
                let (value, next) = fill_at(&entries[i].1, rendered, cur);
                let key = entries[i].0.clone();
                let ghost before = filled@;
                proof {
                    lemma_same_shape_entries_push(entries@.take(i as int), before, entries@[i as int], (key, value));
                    lemma_texts_of_entries_push(before, (key, value));
                }
                filled.push((key, value));
                proof {
                    assert(views(rendered@).subrange(pos as int, next as int) =~= views(rendered@).subrange(pos as int, cur as int)
                        + views(rendered@).subrange(cur as int, next as int));
                }
                cur = next;
                i = i + 1;
            }
            assert(entries@.take(i as int) =~= entries@);
            (TemplateValue::Object(filled), cur)
        },
    }
}

/// The template with its texts replaced, in order, by their rendered forms: numbers,
/// flags, arrays and the keys of objects stay as they are. `None` where the number of
/// rendered texts is not the number of texts of the template.
pub fn render_template(template: &TemplateValue, rendered: &[String]) -> (result: Option<TemplateValue>)
    ensures
        result is Some <==> rendered@.len() == texts_of(*template).len(),
        result matches Some(r) ==> same_shape(*template, r) && texts_of(r) == views(rendered@),
{
    let texts = template_texts(template);
    if texts.len() != rendered.len() {
        return None;
    }
    let (filled, _) = fill_at(template, rendered, 0);
    assert(views(rendered@).subrange(0, rendered@.len() as int) =~= views(rendered@));
    Some(filled)
}

} // verus!
