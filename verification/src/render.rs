use vstd::prelude::*;

verus! {

/// One argument handed to the debug logger, after the host has applied
/// the engine's own string conversion to everything but objects.
///
/// A `Plain` argument is the engine's rendering of a non-object value.
/// An `Object` argument keeps the object's own enumerable properties as
/// name/text pairs, in enumeration order, each value already rendered
/// by the engine; the extraction is one level deep, so a
/// self-referential object still yields a finite argument.
#[derive(Debug, PartialEq)]
pub enum LogArg {
    Plain(String),
    Object(Vec<(String, String)>),
}

/// The model of a debug-logger argument.
pub ghost enum LogArgModel {
    Plain(Seq<char>),
    Object(Seq<(Seq<char>, Seq<char>)>),
}

pub open spec fn log_arg_model_of(a: LogArg) -> LogArgModel {
    match a {
        LogArg::Plain(s) => LogArgModel::Plain(s@),
        LogArg::Object(pairs) => LogArgModel::Object(
            Seq::new(pairs@.len(), |i: int| (pairs@[i].0@, pairs@[i].1@)),
        ),
    }
}

impl View for LogArg {
    type V = LogArgModel;

    open spec fn view(&self) -> LogArgModel {
        log_arg_model_of(*self)
    }
}

/// One `name => value` line of the object rendering.
pub open spec fn entry_spec(p: (Seq<char>, Seq<char>)) -> Seq<char> {
    p.0 + " => `"@ + p.1 + "`"@
}

/// The object-printing rule: every property on a line of its own,
/// indented one tab, as ``name => `value` ``. An object with no
/// properties renders as the empty string.
pub open spec fn render_object_spec(pairs: Seq<(Seq<char>, Seq<char>)>) -> Seq<char>
    decreases pairs,
{
    if pairs.len() == 0 {
        Seq::empty()
    } else {
        "\n\t"@ + entry_spec(pairs[0]) + render_object_spec(pairs.drop_first())
    }
}

/// Appending one property extends the rendering by one line.
pub proof fn lemma_render_object_push(pairs: Seq<(Seq<char>, Seq<char>)>, p: (Seq<char>, Seq<char>))
    ensures
        render_object_spec(pairs.push(p)) == render_object_spec(pairs) + "\n\t"@ + entry_spec(p),
    decreases pairs,
{
    if pairs.len() == 0 {
        assert(pairs.push(p).drop_first() =~= Seq::<(Seq<char>, Seq<char>)>::empty());
        assert(pairs.push(p)[0] == p);
        assert(render_object_spec(pairs.push(p).drop_first()) == Seq::<char>::empty());
        assert(render_object_spec(pairs.push(p)) =~= render_object_spec(pairs) + "\n\t"@
            + entry_spec(p));
    } else {
        lemma_render_object_push(pairs.drop_first(), p);
        assert(pairs.push(p).drop_first() =~= pairs.drop_first().push(p));
        assert(pairs.push(p)[0] == pairs[0]);
        assert(render_object_spec(pairs.push(p)) =~= render_object_spec(pairs) + "\n\t"@
            + entry_spec(p));
    }
}

/// Renders an object's properties by the object-printing rule.
pub fn render_object(pairs: &Vec<(String, String)>) -> (r: String)
    ensures
        r@ == render_object_spec(Seq::new(pairs@.len(), |i: int| (pairs@[i].0@, pairs@[i].1@))),
{
    let ghost model = Seq::new(pairs@.len(), |i: int| (pairs@[i].0@, pairs@[i].1@));
    let mut out = String::new();
    let mut i: usize = 0;
    while i < pairs.len()
        invariant
            i <= pairs.len(),
            model == Seq::new(pairs@.len(), |j: int| (pairs@[j].0@, pairs@[j].1@)),
            out@ == render_object_spec(model.take(i as int)),
        decreases pairs.len() - i,
    {
        out.append("\n\t");
        out.append(pairs[i].0.as_str());
        out.append(" => `");
        out.append(pairs[i].1.as_str());
        out.append("`");
        proof {
            lemma_render_object_push(model.take(i as int), model[i as int]);
            assert(model.take(i as int).push(model[i as int]) =~= model.take(i + 1));
            assert(out@ =~= render_object_spec(model.take(i as int)) + "\n\t"@ + entry_spec(
                model[i as int],
            ));
        }
        i += 1;
    }
    proof {
        assert(model.take(pairs@.len() as int) =~= model);
    }
    out
}

/// The rendered arguments joined by single spaces.
pub open spec fn joined_spec(parts: Seq<Seq<char>>) -> Seq<char>
    decreases parts,
{
    if parts.len() == 0 {
        Seq::empty()
    } else if parts.len() == 1 {
        parts[0]
    } else {
        parts[0] + " "@ + joined_spec(parts.drop_first())
    }
}

/// Appending one part extends the joined text by a space and the part.
pub proof fn lemma_joined_push(parts: Seq<Seq<char>>, p: Seq<char>)
    ensures
        joined_spec(parts.push(p)) == if parts.len() == 0 {
            p
        } else {
            joined_spec(parts) + " "@ + p
        },
    decreases parts,
{
    if parts.len() == 0 {
        assert(parts.push(p)[0] == p);
        assert(joined_spec(parts.push(p)) =~= p);
    } else if parts.len() == 1 {
        assert(parts.push(p).drop_first() =~= parts.drop_first().push(p));
        assert(parts.push(p)[0] == parts[0]);
        assert(parts.drop_first().push(p) =~= seq![p]);
        assert(joined_spec(seq![p]) == p);
        assert(joined_spec(parts.push(p)) =~= joined_spec(parts) + " "@ + p);
    } else {
        lemma_joined_push(parts.drop_first(), p);
        assert(parts.push(p).drop_first() =~= parts.drop_first().push(p));
        assert(parts.push(p)[0] == parts[0]);
        assert(joined_spec(parts.push(p)) =~= joined_spec(parts) + " "@ + p);
    }
}

/// How one argument renders: plain text as itself, an object by the
/// object-printing rule.
pub open spec fn render_arg_spec(a: LogArgModel) -> Seq<char> {
    match a {
        LogArgModel::Plain(s) => s,
        LogArgModel::Object(pairs) => render_object_spec(pairs),
    }
}

/// The whole diagnostic line: arguments rendered, joined with single
/// spaces, terminated by a newline.
pub open spec fn log_line_spec(args: Seq<LogArgModel>) -> Seq<char> {
    joined_spec(Seq::new(args.len(), |i: int| render_arg_spec(args[i]))) + "\n"@
}

/// Renders one debug-logger argument.
pub fn render_arg(a: &LogArg) -> (r: String)
    ensures
        r@ == render_arg_spec(a@),
{
    match a {
        LogArg::Plain(s) => s.clone(),
        LogArg::Object(pairs) => render_object(pairs),
    }
}

/// Builds the diagnostic line for a `log` call. Rendering never fails:
/// every argument list yields a line, ready for the host's output
/// stream.
pub fn log_line(args: &Vec<LogArg>) -> (r: String)
    ensures
        r@ == log_line_spec(Seq::new(args@.len(), |i: int| args@[i]@)),
{
    let ghost model = Seq::new(args@.len(), |i: int| args@[i]@);
    let ghost rendered = Seq::new(model.len(), |i: int| render_arg_spec(model[i]));
    let mut out = String::new();
    let mut i: usize = 0;
    while i < args.len()
        invariant
            i <= args.len(),
            model == Seq::new(args@.len(), |j: int| args@[j]@),
            rendered == Seq::new(model.len(), |j: int| render_arg_spec(model[j])),
            out@ == joined_spec(rendered.take(i as int)),
        decreases args.len() - i,
    {
        if i > 0 {
            out.append(" ");
        }
        let part = render_arg(&args[i]);
        out.append(part.as_str());
        proof {
            lemma_joined_push(rendered.take(i as int), rendered[i as int]);
            assert(rendered.take(i as int).push(rendered[i as int]) =~= rendered.take(i + 1));
            if i > 0 {
                assert(out@ =~= joined_spec(rendered.take(i as int)) + " "@ + rendered[i as int]);
            } else {
                assert(out@ =~= rendered[0]);
            }
        }
        i += 1;
    }
    out.append("\n");
    proof {
        assert(rendered.take(args@.len() as int) =~= rendered);
    }
    out
}

} // verus!
