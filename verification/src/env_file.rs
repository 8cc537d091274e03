//! Environments, and the files of `KEY=VALUE` lines that add to them.
use crate::failure::{self, Failure};
use crate::file_path::{self, FilePath};
use crate::text::{self, decimal, find_char, lines, text_between, to_chars, trim, Text};
use crate::text_map::{self, TextMap};
use vstd::prelude::*;

verus! {

/// The variables of a process.
pub type Environment = TextMap<String>;

/// The texts under the keys of a map.
pub open spec fn text_values(map: Map<Text, String>) -> Map<Text, Text> {
    map.map_values(|s: String| s@)
}

/// What one line of an env file says.
pub enum EnvLine {
    /// Nothing: it is blank or a comment.
    Nothing,
    /// It has no `=`.
    NoSeparator,
    /// There is nothing before the `=`.
    NoKey,
    /// A variable and its value.
    Variable {
        /// The variable.
        key: Text,
        /// Its value.
        value: Text,
    },
}

/// What one line of an env file says. White space around the line, the key and the value does not
/// count.
pub open spec fn env_line(line: Text) -> EnvLine {
    let trimmed = text::trimmed(line);
    let separator = text::position(trimmed, '=') as int;
    if trimmed.len() == 0 || trimmed[0] == '#' {
        EnvLine::Nothing
    } else if separator == trimmed.len() {
        EnvLine::NoSeparator
    } else if text::trimmed(trimmed.take(separator)).len() == 0 {
        EnvLine::NoKey
    } else {
        EnvLine::Variable {
            key: text::trimmed(trimmed.take(separator)),
            value: text::trimmed(trimmed.skip(separator + 1)),
        }
    }
}

/// The complaint about line `number` of the file shown as `shown`.
pub open spec fn invalid_line(number: nat, shown: Text, complaint: Text) -> Seq<Text> {
    seq![
        "invalid env file line "@ + text::decimal_text(number) + " in "@ + shown + complaint,
    ]
}

/// The variables that `lines` set, or the complaint about the first line that says nothing valid.
/// A later line overrides an earlier one.
pub open spec fn env_values(lines: Seq<Text>, shown: Text) -> Result<Map<Text, Text>, Seq<Text>>
    decreases lines.len(),
{
    if lines.len() == 0 {
        Ok(Map::empty())
    } else {
        match env_values(lines.drop_last(), shown) {
            Err(complaint) => Err(complaint),
            Ok(values) => match env_line(lines.last()) {
                EnvLine::Nothing => Ok(values),
                EnvLine::NoSeparator => Err(
                    invalid_line(lines.len(), shown, "; expected KEY=VALUE"@),
                ),
                EnvLine::NoKey => Err(invalid_line(lines.len(), shown, "; key is empty"@)),
                EnvLine::Variable { key, value } => Ok(values.insert(key, value)),
            },
        }
    }
}

/// The variables of an env file: `content` is what reading the file at `path` gave.
pub open spec fn env_file_values(path: Seq<u8>, content: Result<Text, Text>) -> Result<
    Map<Text, Text>,
    Seq<Text>,
> {
    match content {
        Err(cause) => Err(
            seq!["failed to read env file at "@ + file_path::lossy_text(path), cause],
        ),
        Ok(text) => env_values(text::text_lines(text), file_path::lossy_text(path)),
    }
}

/// The variables in the outcome of an operation.
pub open spec fn env_outcome(result: Result<Environment, Failure>) -> Result<
    Map<Text, Text>,
    Seq<Text>,
> {
    match result {
        Ok(values) => Ok(text_values(values@)),
        Err(failure) => Err(failure@),
    }
}

/// `lines` from the first faulty one on do not change the complaint.
proof fn lemma_complaint_stands(lines: Seq<Text>, shown: Text, n: int)
    requires
        0 <= n <= lines.len(),
        env_values(lines.take(n), shown) is Err,
    ensures
        env_values(lines, shown) == env_values(lines.take(n), shown),
    decreases lines.len(),
{
    if n == lines.len() {
        assert(lines.take(n) == lines);
    } else {
        assert(lines.drop_last().take(n) == lines.take(n));
        lemma_complaint_stands(lines.drop_last(), shown, n);
    }
}

fn invalid(number: usize, path: &FilePath, complaint: &str) -> (r: Failure)
    ensures
        r@ == invalid_line(number as nat, file_path::lossy_text(path@), complaint@),
{
    Failure::new(
        "invalid env file line ".to_owned().concat(decimal(number as u64).as_str()).concat(
            " in ",
        ).concat(path.display().as_str()).concat(complaint),
    )
}

/// The variables that an env file sets. `content` is what reading the file at `path` gave.
pub fn read_env_file(path: &FilePath, content: Result<String, String>) -> (r: Result<
    Environment,
    Failure,
>)
    ensures
        env_outcome(r) == env_file_values(path@, failure::text_reply(content)),
{
    let body = match content {
        Ok(body) => body,
        Err(cause) => {
            return Err(
                Failure::because(
                    "failed to read env file at ".to_owned().concat(path.display().as_str()),
                    cause,
                ),
            );
        },
    };
    let rows = lines(body.as_str());
    let ghost all = text::text_lines(body@);
    let ghost shown = file_path::lossy_text(path@);
    let mut values: Environment = TextMap::new();
    let mut i: usize = 0;
    assert(text_values(values@) =~= Map::<Text, Text>::empty());
    while i < rows.len()
        invariant
            text::texts(rows@) == all,
            shown == file_path::lossy_text(path@),
            i <= rows@.len(),
            env_values(all.take(i as int), shown) == Ok::<Map<Text, Text>, Seq<Text>>(
                text_values(values@),
            ),
            failure::text_reply(content) == Ok::<Text, Text>(body@),
            all == text::text_lines(body@),
        decreases rows@.len() - i,
    {
        proof {
            assert(all.take(i + 1).drop_last() == all.take(i as int));
            assert(all.take(i + 1).last() == rows@[i as int]@);
            if env_values(all.take(i + 1), shown) is Err {
                lemma_complaint_stands(all, shown, i + 1);
            }
        }
        let line = trim(rows[i].as_str());
        let chars = to_chars(line.as_str());
        assert(chars@.subrange(0, chars@.len() as int) == chars@);
        let separator = find_char(&chars, 0, '=');
        i = i + 1;
        if chars.len() == 0 || chars[0] == '#' {
            continue;
        }
        if separator == chars.len() {
            return Err(invalid(i, path, "; expected KEY=VALUE"));
        }
        let key = trim(text_between(&chars, 0, separator).as_str());
        assert(line@.subrange(0, separator as int) == line@.take(separator as int));
        if key.as_str().unicode_len() == 0 {
            return Err(invalid(i, path, "; key is empty"));
        }
        let value = trim(text_between(&chars, separator + 1, chars.len()).as_str());
        assert(line@.subrange(separator + 1, line@.len() as int) == line@.skip(separator + 1));
        let ghost before = values@;
        proof {
            assert(text_values(before.insert(key@, value)) =~= text_values(before).insert(
                key@,
                value@,
            ));
        }
        values.insert(key, value);
    }
    assert(all.take(all.len() as int) == all);
    Ok(values)
}

/// `values` with the variables of `over` set over them.
pub fn set_over(values: Environment, over: &Environment) -> (r: Environment)
    ensures
        text_values(r@) == text_values(values@).union_prefer_right(text_values(over@)),
{
    let mut values = values;
    let ghost base = text_values(values@);
    let entries = over.entries();
    let mut i: usize = 0;
    assert(entries@.take(0) =~= Seq::<(String, String)>::empty());
    assert(base.union_prefer_right(text_values(text_map::entries_map(entries@.take(0)))) =~= base);
    while i < entries.len()
        invariant
            i <= entries@.len(),
            text_map::keys_ascend(entries@),
            text_map::entries_map(entries@) == over@,
            text_values(values@) == base.union_prefer_right(
                text_values(text_map::entries_map(entries@.take(i as int))),
            ),
        decreases entries@.len() - i,
    {
        proof {
            text_map::lemma_one_entry_more(entries@, i as int);
            let key = entries@[i as int].0@;
            let value = entries@[i as int].1;
            let part = text_map::entries_map(entries@.take(i as int));
            assert(text_values(part.insert(key, value)) =~= text_values(part).insert(key, value@));
            assert(base.union_prefer_right(text_values(part).insert(key, value@))
                =~= base.union_prefer_right(text_values(part)).insert(key, value@));
            assert(text_values(values@.insert(key, value)) =~= text_values(values@).insert(
                key,
                value@,
            ));
        }
        values.insert(entries[i].0.clone(), entries[i].1.clone());
        i = i + 1;
    }
    assert(entries@.take(entries@.len() as int) == entries@);
    values
}

/// The environment that an app gets: the variables of the env file, where one is named, over the
/// current ones.
pub open spec fn merged(
    current: Map<Text, Text>,
    env_file: Option<(Seq<u8>, Result<Text, Text>)>,
) -> Result<Map<Text, Text>, Seq<Text>> {
    match env_file {
        None => Ok(current),
        Some((path, content)) => match env_file_values(path, content) {
            Ok(values) => Ok(current.union_prefer_right(values)),
            Err(complaint) => Err(complaint),
        },
    }
}

/// An env file that was read: where it is, and what reading it gave.
pub open spec fn env_file_view(env_file: Option<(FilePath, Result<String, String>)>) -> Option<
    (Seq<u8>, Result<Text, Text>),
> {
    match env_file {
        None => None,
        Some((path, content)) => Some((path@, failure::text_reply(content))),
    }
}

/// The environment that an app gets. `current` are the current variables; `env_file` is the env
/// file with what reading it gave, where one is named.
pub fn merged_environment(
    current: Environment,
    env_file: Option<(FilePath, Result<String, String>)>,
) -> (r: Result<Environment, Failure>)
    ensures
        env_outcome(r) == merged(text_values(current@), env_file_view(env_file)),
{
    match env_file {
        None => Ok(current),
        Some((path, content)) => match read_env_file(&path, content) {
            Ok(values) => Ok(set_over(current, &values)),
            Err(failure) => Err(failure),
        },
    }
}

/// The last line that sets a variable decides its value: with a line after it that sets the same
/// variable, nothing of its earlier value is left, and every other variable stays as it was.
pub proof fn law_later_line_overrides(lines: Seq<Text>, shown: Text, line: Text)
    requires
        env_values(lines, shown) is Ok,
        env_line(line) is Variable,
    ensures
        env_values(lines.push(line), shown) == Ok::<Map<Text, Text>, Seq<Text>>(
            env_values(lines, shown)->Ok_0.insert(env_line(line)->key, env_line(line)->value),
        ),
{
    assert(lines.push(line).drop_last() == lines);
}

/// A variable is set by an env file exactly where a line of it sets the variable.
pub proof fn law_only_lines_set_variables(lines: Seq<Text>, shown: Text, key: Text)
    requires
        env_values(lines, shown) is Ok,
    ensures
        env_values(lines, shown)->Ok_0.contains_key(key) <==> exists|i: int|
            0 <= i < lines.len() && (#[trigger] env_line(lines[i]) is Variable) && env_line(
                lines[i],
            )->key == key,
    decreases lines.len(),
{
    if lines.len() > 0 {
        let front = lines.drop_last();
        law_only_lines_set_variables(front, shown, key);
        if env_values(front, shown)->Ok_0.contains_key(key) {
            let i = choose|i: int|
                0 <= i < front.len() && (#[trigger] env_line(front[i]) is Variable) && env_line(
                    front[i],
                )->key == key;
            assert(env_line(lines[i]) is Variable);
        }
        if exists|i: int|
            0 <= i < lines.len() && (#[trigger] env_line(lines[i]) is Variable) && env_line(
                lines[i],
            )->key == key {
            let i = choose|i: int|
                0 <= i < lines.len() && (#[trigger] env_line(lines[i]) is Variable) && env_line(
                    lines[i],
                )->key == key;
            if i < front.len() {
                assert(env_line(front[i]) is Variable);
            }
        }
        assert(env_line(lines[lines.len() - 1]) == env_line(lines.last()));
    }
}

/// Values of the env file win over the current environment, and the rest of the current
/// environment stays.
pub proof fn law_env_file_wins(
    current: Map<Text, Text>,
    path: Seq<u8>,
    content: Result<Text, Text>,
    key: Text,
)
    requires
        env_file_values(path, content) is Ok,
    ensures
        ({
            let values = env_file_values(path, content)->Ok_0;
            let all = merged(current, Some((path, content)));
            &&& all is Ok
            &&& values.contains_key(key) ==> all->Ok_0.contains_key(key) && all->Ok_0[key]
                == values[key]
            &&& !values.contains_key(key) ==> all->Ok_0.contains_key(key) == current.contains_key(
                key,
            ) && (current.contains_key(key) ==> all->Ok_0[key] == current[key])
        }),
{
}

/// A line `KEY=VALUE` sets the variable to the value, whatever white space stands around the line,
/// the key and the value. The key ends at the first `=`; the value may hold more of them, or be
/// empty.
pub proof fn law_line_sets_its_variable(
    before: Text,
    key: Text,
    behind_key: Text,
    before_value: Text,
    value: Text,
    after: Text,
)
    requires
        text::blank(before),
        text::blank(behind_key),
        text::blank(before_value),
        text::blank(after),
        text::tight(key),
        text::tight(value),
        key.len() > 0,
        key[0] != '#',
        !key.contains('='),
    ensures
        env_line(before + key + behind_key + seq!['='] + before_value + value + after)
            == (EnvLine::Variable { key, value }),
{
    let line = before + key + behind_key + seq!['='] + before_value + value + after;
    let name = key + behind_key;
    let rest = before_value + value;
    assert(!name.contains('=')) by {
        if name.contains('=') {
            let i = name.index_of('=');
            if i < key.len() {
                assert(key.contains(key[i]));
            } else {
                assert(text::white_space(behind_key[i - key.len()]));
            }
        }
    }
    let none = Seq::<char>::empty();
    if value.len() > 0 {
        let inside = name + seq!['='] + rest;
        assert(line =~= before + inside + after);
        assert(inside[0] == key[0]);
        assert(inside.last() == value.last());
        text::law_trimmed_is_what_stands_inside(before, inside, after);
        text::law_first_place(name, '=', rest);
        assert(inside.take(name.len() as int) =~= name);
        assert(inside.skip(name.len() as int + 1) =~= rest);
        assert(name =~= none + key + behind_key);
        text::law_trimmed_is_what_stands_inside(none, key, behind_key);
        assert(rest =~= before_value + value + none);
        text::law_trimmed_is_what_stands_inside(before_value, value, none);
    } else {
        let inside = name + seq!['='];
        let space = before_value + after;
        assert(text::blank(space)) by {
            assert forall|i: int| 0 <= i < space.len() implies text::white_space(
                #[trigger] space[i],
            ) by {
                if i < before_value.len() {
                    assert(text::white_space(before_value[i]));
                } else {
                    assert(text::white_space(after[i - before_value.len()]));
                }
            }
        }
        assert(line =~= before + inside + space);
        assert(inside[0] == key[0]);
        text::law_trimmed_is_what_stands_inside(before, inside, space);
        assert(inside =~= name + seq!['='] + none);
        text::law_first_place(name, '=', none);
        assert(inside.take(name.len() as int) =~= name);
        assert(inside.skip(name.len() as int + 1) =~= none);
        assert(name =~= none + key + behind_key);
        text::law_trimmed_is_what_stands_inside(none, key, behind_key);
        assert(none + none + none =~= none);
        text::law_trimmed_is_what_stands_inside(none, none, none);
        assert(value =~= none);
    }
}

/// A blank line and a comment say nothing. A line that says something and holds no `=` is faulty,
/// and so is one that begins with it.
pub proof fn law_lines_without_a_variable(before: Text, inside: Text, after: Text)
    requires
        text::blank(before),
        text::blank(after),
        text::tight(inside),
    ensures
        inside.len() == 0 ==> env_line(before + inside + after) is Nothing,
        inside.len() > 0 && inside[0] == '#' ==> env_line(before + inside + after) is Nothing,
        inside.len() > 0 && inside[0] != '#' && !inside.contains('=') ==> env_line(
            before + inside + after,
        ) is NoSeparator,
        inside.len() > 0 && inside[0] == '=' ==> env_line(before + inside + after) is NoKey,
{
    text::law_trimmed_is_what_stands_inside(before, inside, after);
    let none = Seq::<char>::empty();
    if inside.len() > 0 && !inside.contains('=') {
        text::law_first_place(inside, '=', none);
    }
    if inside.len() > 0 && inside[0] == '=' {
        assert(inside =~= none + seq!['='] + inside.drop_first());
        text::law_first_place(none, '=', inside.drop_first());
        assert(inside.take(0) =~= none);
        assert(none + none + none =~= none);
        text::law_trimmed_is_what_stands_inside(none, none, none);
    }
}

/// An env file is refused at its first faulty line, which is told by its number and the file, and
/// whatever comes behind it does not matter.
pub proof fn law_first_faulty_line_is_told(lines: Seq<Text>, shown: Text, i: int)
    requires
        0 <= i < lines.len(),
        forall|j: int|
            0 <= j < i ==> (#[trigger] env_line(lines[j]) is Nothing) || env_line(lines[j])
                is Variable,
        env_line(lines[i]) is NoSeparator || env_line(lines[i]) is NoKey,
    ensures
        env_values(lines, shown) == Err::<Map<Text, Text>, Seq<Text>>(
            seq![
                "invalid env file line "@ + text::decimal_text((i + 1) as nat) + " in "@ + shown
                    + if env_line(lines[i]) is NoSeparator {
                    "; expected KEY=VALUE"@
                } else {
                    "; key is empty"@
                },
            ],
        ),
{
    let good = lines.take(i);
    assert forall|j: int| 0 <= j < good.len() implies (#[trigger] env_line(good[j]) is Nothing)
        || env_line(good[j]) is Variable by {
        assert(env_line(lines[j]) is Nothing || env_line(lines[j]) is Variable);
    }
    law_sound_lines_are_accepted(good, shown);
    let part = lines.take(i + 1);
    assert(part.drop_last() =~= good);
    assert(part.last() == lines[i]);
    lemma_complaint_stands(lines, shown, i + 1);
}

/// An env file without a faulty line is accepted.
pub proof fn law_sound_lines_are_accepted(lines: Seq<Text>, shown: Text)
    requires
        forall|j: int|
            0 <= j < lines.len() ==> (#[trigger] env_line(lines[j]) is Nothing) || env_line(
                lines[j],
            ) is Variable,
    ensures
        env_values(lines, shown) is Ok,
    decreases lines.len(),
{
    if lines.len() > 0 {
        let front = lines.drop_last();
        assert forall|j: int| 0 <= j < front.len() implies (#[trigger] env_line(front[j])
            is Nothing) || env_line(front[j]) is Variable by {
            assert(env_line(lines[j]) is Nothing || env_line(lines[j]) is Variable);
        }
        law_sound_lines_are_accepted(front, shown);
        assert(env_line(lines[lines.len() - 1]) is Nothing || env_line(lines[lines.len() - 1])
            is Variable);
    }
}

/// The value of a variable is that of the last line that sets it.
pub proof fn law_last_line_decides(lines: Seq<Text>, shown: Text, i: int)
    requires
        env_values(lines, shown) is Ok,
        0 <= i < lines.len(),
        env_line(lines[i]) is Variable,
        forall|j: int|
            i < j < lines.len() ==> !((#[trigger] env_line(lines[j]) is Variable) && env_line(
                lines[j],
            )->key == env_line(lines[i])->key),
    ensures
        env_values(lines, shown)->Ok_0.contains_key(env_line(lines[i])->key),
        env_values(lines, shown)->Ok_0[env_line(lines[i])->key] == env_line(lines[i])->value,
    decreases lines.len(),
{
    let front = lines.drop_last();
    if i < front.len() {
        assert forall|j: int| i < j < front.len() implies !((#[trigger] env_line(front[j])
            is Variable) && env_line(front[j])->key == env_line(front[i])->key) by {
            assert(!(env_line(lines[j]) is Variable && env_line(lines[j])->key == env_line(
                lines[i],
            )->key));
        }
        law_last_line_decides(front, shown, i);
        assert(!(env_line(lines[lines.len() - 1]) is Variable && env_line(
            lines[lines.len() - 1],
        )->key == env_line(lines[i])->key));
    }
}

/// Without an env file the environment stays as it is; with one that cannot be read there is none.
pub proof fn law_environment_without_a_file(
    current: Map<Text, Text>,
    path: Seq<u8>,
    cause: Text,
)
    ensures
        merged(current, None) == Ok::<Map<Text, Text>, Seq<Text>>(current),
        merged(current, Some((path, Err(cause)))) == Err::<Map<Text, Text>, Seq<Text>>(
            seq!["failed to read env file at "@ + file_path::lossy_text(path), cause],
        ),
{
}

/// An env file is read line by line.
pub proof fn law_env_file_is_its_lines(path: Seq<u8>, content: Text)
    ensures
        env_file_values(path, Ok(content)) == env_values(
            text::text_lines(content),
            file_path::lossy_text(path),
        ),
{
}

} // verus!
