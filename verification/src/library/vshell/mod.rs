//! Violet shell: a line editor, a command line parser and a table of
//! commands. Reading keys, printing and running commands are left to the
//! caller.
use vstd::prelude::*;

verus! {

pub const DEL: u8 = 0x7F;
pub const ENTER: u8 = 0x0D;
pub const NULL: u8 = 0x00;
pub const BACK_SPACE: u8 = 0x08;
pub const SPACE: u8 = 0x20;

/// Number by which the built-in `help` command is called.
pub const HELP_COMMAND: usize = 0;

/// A command: the name the user types and the number of the function that
/// implements it.
pub struct Command {
    pub name: String,
    pub func: usize,
}

impl Command {
    pub fn new(name: &str, func: usize) -> (r: Self)
        ensures
            r.name@ == name@,
            r.func == func,
    {
        Command { name: name.to_owned(), func }
    }

    /// A copy of the command.
    pub fn copy(&self) -> (r: Command)
        ensures
            r.name@ == self.name@,
            r.func == self.func,
    {
        Command { name: self.name.clone(), func: self.func }
    }
}

/// What the line editor does with a key.
#[derive(PartialEq, Eq, Structural, Clone, Copy, Debug)]
pub enum KeyAction {
    /// The line is complete: print a newline.
    Enter,
    /// Nothing to do.
    Ignore,
    /// The last character was removed: print backspace, space, backspace.
    Erase,
    /// The character was added: print it.
    Echo(char),
}

/// What the shell does with a complete line.
pub enum ShellAction {
    /// Run the command with the words that follow its name.
    Execute(Command, Vec<Vec<char>>),
    /// Leave the shell.
    Exit,
    /// Report that no command has this name.
    NotFound(Vec<char>),
    /// The line is empty.
    Nothing,
}

/// The Unicode white space characters.
pub open spec fn is_ws(c: char) -> bool {
    let u = c as u32;
    ||| 0x9 <= u <= 0xd
    ||| u == 0x20
    ||| u == 0x85
    ||| u == 0xa0
    ||| u == 0x1680
    ||| 0x2000 <= u <= 0x200a
    ||| u == 0x2028
    ||| u == 0x2029
    ||| u == 0x202f
    ||| u == 0x205f
    ||| u == 0x3000
}

/// Whether `c` is a Unicode white space character.
pub fn is_whitespace(c: char) -> (r: bool)
    ensures
        r == is_ws(c),
        (c as u32) < 0x100 ==> (r <==> (9 <= (c as u32) <= 13 || c as u32 == 0x20 || c as u32 == 0x85
            || c as u32 == 0xa0)),
{
    let u = c as u32;
    (0x9 <= u && u <= 0xd) || u == 0x20 || u == 0x85 || u == 0xa0 || u == 0x1680 || (0x2000 <= u && u
        <= 0x200a) || u == 0x2028 || u == 0x2029 || u == 0x202f || u == 0x205f || u == 0x3000
}

/// The words of `s`: its maximal runs of characters that are not white
/// space, in order.
pub open spec fn words(s: Seq<char>) -> Seq<Seq<char>>
    decreases s.len(),
{
    if s.len() == 0 {
        Seq::empty()
    } else {
        let p = s.drop_last();
        let c = s.last();
        let w = words(p);
        if is_ws(c) {
            w
        } else if p.len() == 0 || is_ws(p.last()) {
            w.push(seq![c])
        } else {
            w.update(w.len() - 1, w.last().push(c))
        }
    }
}

/// No printable ASCII character (`!` to `~`, letters, digits, `_` and the
/// other punctuation among them) is white space.
pub proof fn lemma_ascii_graphic_not_ws(c: char)
    requires
        0x21 <= (c as u32) <= 0x7e,
    ensures
        !is_ws(c),
{
}

/// A non-empty line without white space is a single word: the line itself.
pub proof fn lemma_no_ws_one_word(s: Seq<char>)
    requires
        s.len() > 0,
        forall|i: int| 0 <= i < s.len() ==> !is_ws(#[trigger] s[i]),
    ensures
        words(s) == seq![s],
    decreases s.len(),
{
    let p = s.drop_last();
    assert(!is_ws(s[s.len() - 1]));
    if p.len() == 0 {
        assert(s =~= seq![s.last()]);
        assert(words(p) =~= Seq::<Seq<char>>::empty());
        assert(words(s) =~= seq![s]);
    } else {
        assert forall|i: int| 0 <= i < p.len() implies !is_ws(#[trigger] p[i]) by {
            assert(p[i] == s[i]);
        }
        lemma_no_ws_one_word(p);
        assert(p.last() == s[s.len() - 2]);
        assert(p.push(s.last()) =~= s);
        assert(!is_ws(p.last()));
        assert(words(p).update(0, p.push(s.last())) =~= seq![s]);
    }
}

/// A non-empty line of printable ASCII characters, such as `vm_list`, is a
/// single word.
pub proof fn lemma_ascii_graphic_line_one_word(s: Seq<char>)
    requires
        s.len() > 0,
        forall|i: int| 0 <= i < s.len() ==> 0x21 <= (#[trigger] s[i] as u32) <= 0x7e,
    ensures
        words(s) == seq![s],
{
    assert forall|i: int| 0 <= i < s.len() implies !is_ws(#[trigger] s[i]) by {
        lemma_ascii_graphic_not_ws(s[i]);
    }
    lemma_no_ws_one_word(s);
}

proof fn lemma_words_nonempty_end(s: Seq<char>)
    requires
        s.len() > 0,
        !is_ws(s.last()),
    ensures
        words(s).len() > 0,
    decreases s.len(),
{
    let p = s.drop_last();
    if !(p.len() == 0 || is_ws(p.last())) {
        lemma_words_nonempty_end(p);
    }
}

/// The words of `line`, split at white space.
pub fn split_whitespace(line: &Vec<char>) -> (r: Vec<Vec<char>>)
    ensures
        r@.len() == words(line@).len(),
        forall|i: int| 0 <= i < r@.len() ==> #[trigger] r@[i]@ == words(line@)[i],
{
    let mut done: Vec<Vec<char>> = Vec::new();
    let mut cur: Vec<char> = Vec::new();
    let mut i: usize = 0;
    while i < line.len()
        invariant
            i <= line@.len(),
            cur@.len() > 0 <==> (i > 0 && !is_ws(line@[i - 1])),
            cur@.len() == 0 ==> words(line@.take(i as int)).len() == done@.len() && forall|k: int|
                0 <= k < done@.len() ==> #[trigger] done@[k]@ == words(line@.take(i as int))[k],
            cur@.len() > 0 ==> words(line@.take(i as int)).len() == done@.len() + 1 && words(
                line@.take(i as int),
            ).last() == cur@ && forall|k: int|
                0 <= k < done@.len() ==> #[trigger] done@[k]@ == words(line@.take(i as int))[k],
        decreases line@.len() - i,
    {
        let c = line[i];
        let ghost pre = line@.take(i as int);
        let ghost post = line@.take(i + 1);
        assert(post.drop_last() =~= pre);
        assert(post.last() == c);
        if is_whitespace(c) {
            if cur.len() > 0 {
                let ghost old_done = done@;
                let w = cur;
                done.push(w);
                cur = Vec::new();
                assert forall|k: int| 0 <= k < done@.len() implies #[trigger] done@[k]@ == words(post)[k] by {
                    if k < old_done.len() {
                        assert(done@[k] == old_done[k]);
                    }
                }
            }
        } else {
            if cur.len() == 0 {
                proof {
                    if i > 0 {
                        assert(pre.last() == line@[i - 1]);
                    }
                }
                cur.push(c);
                assert(cur@ =~= seq![c]);
            } else {
                proof {
                    assert(pre.last() == line@[i - 1]);
                    lemma_words_nonempty_end(pre);
                }
                cur.push(c);
            }
        }
        i = i + 1;
    }
    assert(line@.take(line@.len() as int) =~= line@);
    if cur.len() > 0 {
        let ghost old_done = done@;
        done.push(cur);
        assert forall|k: int| 0 <= k < done@.len() implies #[trigger] done@[k]@ == words(line@)[k] by {
            if k < old_done.len() {
                assert(done@[k] == old_done[k]);
            }
        }
    }
    done
}

/// Whether the characters of `a` are those of `b`.
pub fn chars_eq_str(a: &Vec<char>, b: &str) -> (r: bool)
    ensures
        r == (a@ == b@),
{
    let n = b.unicode_len();
    if a.len() != n {
        return false;
    }
    let mut i: usize = 0;
    while i < n
        invariant
            n == b@.len(),
            a@.len() == n,
            i <= n,
            forall|k: int| 0 <= k < i ==> a@[k] == b@[k],
        decreases n - i,
    {
        if a[i] != b.get_char(i) {
            return false;
        }
        i = i + 1;
    }
    assert(a@ =~= b@);
    true
}

/// The characters of `s`.
pub fn str_to_chars(s: &str) -> (r: Vec<char>)
    ensures
        r@ == s@,
{
    let n = s.unicode_len();
    let mut r: Vec<char> = Vec::new();
    let mut i: usize = 0;
    while i < n
        invariant
            n == s@.len(),
            i <= n,
            r@ == s@.take(i as int),
        decreases n - i,
    {
        r.push(s.get_char(i));
        i = i + 1;
        assert(r@ =~= s@.take(i as int));
    }
    assert(r@ =~= s@);
    r
}

/// Whether `a` and `b` are the same string.
pub fn str_eq(a: &str, b: &str) -> (r: bool)
    ensures
        r == (a@ == b@),
{
    let n = b.unicode_len();
    if a.unicode_len() != n {
        return false;
    }
    let mut i: usize = 0;
    while i < n
        invariant
            n == b@.len(),
            a@.len() == n,
            i <= n,
            forall|k: int| 0 <= k < i ==> a@[k] == b@[k],
        decreases n - i,
    {
        if a.get_char(i) != b.get_char(i) {
            return false;
        }
        i = i + 1;
    }
    assert(a@ =~= b@);
    true
}

/// What a key does to the line being typed: Enter completes it, NUL is
/// ignored, Delete and Backspace remove its last character when it has one,
/// and any other key adds its character.
pub fn edit_line(line: &mut Vec<char>, c: u8) -> (r: KeyAction)
    ensures
        c == ENTER ==> r == KeyAction::Enter && final(line)@ == old(line)@,
        c == NULL ==> r == KeyAction::Ignore && final(line)@ == old(line)@,
        (c == DEL || c == BACK_SPACE) && old(line)@.len() > 0 ==> r == KeyAction::Erase && final(line)@ == old(line)@.drop_last(),
        (c == DEL || c == BACK_SPACE) && old(line)@.len() == 0 ==> r == KeyAction::Ignore && final(line)@ == old(line)@,
        c != ENTER && c != NULL && c != DEL && c != BACK_SPACE ==> r == KeyAction::Echo(c as char) && final(line)@ == old(line)@.push(c as char),
{
    if c == ENTER {
        KeyAction::Enter
    } else if c == NULL {
        KeyAction::Ignore
    } else if c == DEL || c == BACK_SPACE {
        if line.len() > 0 {
            line.pop();
            KeyAction::Erase
        } else {
            KeyAction::Ignore
        }
    } else {
        let ch = c as char;
        line.push(ch);
        KeyAction::Echo(ch)
    }
}

/// The index of the first command of `s` named `name`, or -1.
pub open spec fn cmd_index(s: Seq<Command>, name: Seq<char>) -> int
    decreases s.len(),
{
    if s.len() == 0 {
        -1
    } else if s[0].name@ == name {
        0
    } else if cmd_index(s.drop_first(), name) == -1 {
        -1
    } else {
        1 + cmd_index(s.drop_first(), name)
    }
}

proof fn lemma_cmd_index_props(s: Seq<Command>, name: Seq<char>)
    ensures
        ({
            let k = cmd_index(s, name);
            &&& k == -1 || (0 <= k < s.len() && s[k].name@ == name)
            &&& forall|j: int| 0 <= j < s.len() && (k == -1 || j < k) ==> #[trigger] s[j].name@ != name
        }),
    decreases s.len(),
{
    if s.len() > 0 {
        lemma_cmd_index_props(s.drop_first(), name);
        assert forall|j: int|
            0 <= j < s.len() && (cmd_index(s, name) == -1 || j < cmd_index(s, name)) implies #[trigger] s[j].name@
            != name by {
            if j > 0 {
                assert(s[j] == s.drop_first()[j - 1]);
            }
        }
    }
}

/// A command added to a table is found by its name: it is the first of
/// that name unless an earlier command has the same name, which is then
/// still the one found.
pub proof fn lemma_add_then_search(s: Seq<Command>, c: Command)
    ensures
        cmd_index(s, c.name@) == -1 ==> cmd_index(s.push(c), c.name@) == s.len(),
        cmd_index(s, c.name@) != -1 ==> cmd_index(s.push(c), c.name@) == cmd_index(s, c.name@),
    decreases s.len(),
{
    if s.len() > 0 {
        assert(s.push(c).drop_first() =~= s.drop_first().push(c));
        assert(s.push(c)[0] == s[0]);
        lemma_add_then_search(s.drop_first(), c);
        lemma_cmd_index_props(s.drop_first(), c.name@);
    } else {
        assert(s.push(c)[0] == c);
        assert(cmd_index(s.push(c), c.name@) == 0);
        assert(s.push(c).drop_first() =~= Seq::<Command>::empty());
    }
}

/// The shell: its prompt and its commands.
pub struct VShell {
    prompt: String,
    cmds: Vec<Command>,
}

impl VShell {
    pub closed spec fn spec_prompt(&self) -> Seq<char> {
        self.prompt@
    }

    /// The commands, in order of registration.
    pub closed spec fn spec_cmds(&self) -> Seq<Command> {
        self.cmds@
    }

    /// A shell with the prompt `Violet%` and the built-in command `help`.
    pub fn new() -> (r: Self)
        ensures
            r.spec_prompt() == "Violet%"@,
            r.spec_cmds().len() == 1,
            r.spec_cmds()[0].name@ == "help"@,
            r.spec_cmds()[0].func == HELP_COMMAND,
    {
        let mut vec = Vec::new();
        vec.push(Command::new("help", HELP_COMMAND));
        VShell { prompt: "Violet%".to_owned(), cmds: vec }
    }

    /// The prompt.
    pub fn prompt(&self) -> (r: &str)
        ensures
            r@ == self.spec_prompt(),
    {
        self.prompt.as_str()
    }

    /// Adds a command after those already there.
    pub fn add_cmd(&mut self, command: Command)
        ensures
            final(self).spec_cmds() == old(self).spec_cmds().push(command),
            final(self).spec_prompt() == old(self).spec_prompt(),
    {
        self.cmds.push(command);
    }

    fn search_pos(&self, name: &Vec<char>) -> (r: Option<usize>)
        ensures
            cmd_index(self.spec_cmds(), name@) == -1 <==> r is None,
            r matches Some(i) ==> i == cmd_index(self.spec_cmds(), name@) && i < self.spec_cmds().len(),
    {
        proof {
            lemma_cmd_index_props(self.spec_cmds(), name@);
        }
        let mut i: usize = 0;
        while i < self.cmds.len()
            invariant
                i <= self.cmds@.len(),
                forall|j: int| 0 <= j < i ==> #[trigger] self.cmds@[j].name@ != name@,
                cmd_index(self.spec_cmds(), name@) == -1 || (i <= cmd_index(self.spec_cmds(), name@)
                    < self.spec_cmds().len() && self.spec_cmds()[cmd_index(self.spec_cmds(), name@)].name@
                    == name@),
                forall|j: int|
                    0 <= j < self.spec_cmds().len() && (cmd_index(self.spec_cmds(), name@) == -1 || j
                        < cmd_index(self.spec_cmds(), name@)) ==> #[trigger] self.spec_cmds()[j].name@ != name@,
            decreases self.cmds@.len() - i,
        {
            if chars_eq_str(name, self.cmds[i].name.as_str()) {
                return Some(i);
            }
            i = i + 1;
        }
        None
    }

    /// The first command named `name`.
    pub fn search_cmd(&self, name: &str) -> (r: Option<Command>)
        ensures
            cmd_index(self.spec_cmds(), name@) == -1 ==> r is None,
            cmd_index(self.spec_cmds(), name@) != -1 ==> (r matches Some(c) && c.name@ == name@ && c.func
                == self.spec_cmds()[cmd_index(self.spec_cmds(), name@)].func),
    {
        let chars = str_to_chars(name);
        proof {
            lemma_cmd_index_props(self.spec_cmds(), name@);
        }
        match self.search_pos(&chars) {
            Some(i) => Some(self.cmds[i].copy()),
            None => None,
        }
    }

    /// What to do with a complete line: its first word names the command to
    /// run with the other words; a line whose first word is `exit` and names
    /// no command leaves the shell; a line with no word does nothing.
    pub fn interpret(&self, line: &Vec<char>) -> (r: ShellAction)
        ensures
            ({
                let ws = words(line@);
                let name = if ws.len() > 0 {
                    ws[0]
                } else {
                    Seq::<char>::empty()
                };
                let k = cmd_index(self.spec_cmds(), name);
                &&& k != -1 ==> (r matches ShellAction::Execute(c, args) && c.name@ == name && c.func
                    == self.spec_cmds()[k].func && args@.len() == (if ws.len() > 0 {
                    ws.len() - 1
                } else {
                    0
                }) && forall|i: int|
                    0 <= i < args@.len() ==> #[trigger] args@[i]@ == ws[i + 1])
                &&& k == -1 && name == "exit"@ ==> r is Exit
                &&& k == -1 && name != "exit"@ && name.len() > 0 ==> (r matches ShellAction::NotFound(n) && n@
                    == name)
                &&& k == -1 && name.len() == 0 ==> r is Nothing
            }),
    {
        proof {
            reveal_strlit("exit");
        }
        let argv = split_whitespace(line);
        let name: Vec<char> = if argv.len() > 0 {
            let mut n: Vec<char> = Vec::new();
            let w = &argv[0];
            let mut j: usize = 0;
            while j < w.len()
                invariant
                    j <= w@.len(),
                    n@ == w@.take(j as int),
                decreases w@.len() - j,
            {
                n.push(w[j]);
                j = j + 1;
                assert(n@ =~= w@.take(j as int));
            }
            assert(w@.take(w@.len() as int) =~= w@);
            n
        } else {
            Vec::new()
        };
        proof {
            lemma_cmd_index_props(self.spec_cmds(), name@);
        }
        match self.search_pos(&name) {
            Some(i) => {
                let cmd = self.cmds[i].copy();
                let mut args: Vec<Vec<char>> = Vec::new();
                let mut k: usize = 1;
                while k < argv.len()
                    invariant
                        1 <= k,
                        k <= argv@.len() || (argv@.len() == 0 && k == 1),
                        args@.len() == k - 1,
                        forall|m: int| 0 <= m < args@.len() ==> #[trigger] args@[m]@ == argv@[m + 1]@,
                    decreases argv@.len() - k,
                {
                    let mut a: Vec<char> = Vec::new();
                    let w = &argv[k];
                    let mut j: usize = 0;
                    while j < w.len()
                        invariant
                            j <= w@.len(),
                            a@ == w@.take(j as int),
                        decreases w@.len() - j,
                    {
                        a.push(w[j]);
                        j = j + 1;
                        assert(a@ =~= w@.take(j as int));
                    }
                    assert(w@.take(w@.len() as int) =~= w@);
                    let ghost old_args = args@;
                    args.push(a);
                    assert forall|m: int| 0 <= m < args@.len() implies #[trigger] args@[m]@ == argv@[m + 1]@ by {
                        if m < old_args.len() {
                            assert(args@[m] == old_args[m]);
                        }
                    }
                    k = k + 1;
                }
                ShellAction::Execute(cmd, args)
            },
            None => {
                if chars_eq_str(&name, "exit") {
                    ShellAction::Exit
                } else if name.len() > 0 {
                    ShellAction::NotFound(name)
                } else {
                    ShellAction::Nothing
                }
            },
        }
    }
}

} // verus!
