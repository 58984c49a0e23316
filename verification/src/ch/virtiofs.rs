//! The arguments of the shared file system that is served inside the hypervisor.

use go_flag::{FlagError, FlagSet};
use vstd::prelude::*;
use vstd::string::*;

use crate::ch::types::DeviceError;
use crate::text::{split, split_str, str_eq, texts};

verus! {

broadcast use vstd::string::group_string_axioms;

/// The flag for debug output, which is not implemented.
pub const FLAG_DEBUG: &'static str = "d";

/// The flag for the number of server threads.
pub const FLAG_THREAD_POOL_SIZE: &'static str = "thread-pool-size";

/// The flag that gives up the right to exceed resource limits.
pub const FLAG_DROP_SYS_RESOURCE: &'static str = "drop-sys-resource";

/// The flag for the list of options.
pub const FLAG_OPTIONS: &'static str = "o";

/// The configuration of the server.
#[derive(Clone, Copy, Debug, PartialEq, Eq, Structural)]
pub struct BackendFsConfig {
    /// The number of server threads.
    pub thread_pool_size: u16,
    /// Whether the right to exceed resource limits is given up.
    pub drop_sys_resource: bool,
    /// The caching policy: automatic, always or none.
    pub cache: u8,
    /// Whether files are used without being opened.
    pub no_open: bool,
    /// Whether writes are cached.
    pub writeback_cache: bool,
    /// Whether extended attributes are passed on.
    pub xattr: bool,
    /// Whether directories cannot be listed.
    pub no_readdir: bool,
    /// Whether the guest kernel clears privilege bits.
    pub killpriv_v2: bool,
}

/// Caching is decided file by file.
pub const CACHE_AUTO: u8 = 0;

/// Everything is cached.
pub const CACHE_ALWAYS: u8 = 1;

/// Nothing is cached.
pub const CACHE_NONE: u8 = 2;

/// Values of the flags.
#[derive(Debug)]
pub struct FlagValues {
    /// Debug output.
    pub debug: bool,
    /// The number of server threads.
    pub thread_pool_size: u16,
    /// Whether the right to exceed resource limits is given up.
    pub drop_sys_resource: bool,
    /// The list of options.
    pub options: String,
}

/// Errors of the flag parser.
#[verifier::external_type_specification]
#[verifier::external_body]
pub struct ExFlagError(FlagError);

/// What go-flag's parser makes of `args` with two switches, a 16-bit number and a text, each given
/// by its name and the value that it has when `args` do not mention it: the four values, or nothing
/// where the parser reports an error.
pub uninterp spec fn parsed_flags(
    args: Seq<Seq<char>>,
    switch_a: Seq<char>,
    initial_a: bool,
    number: Seq<char>,
    initial_number: u16,
    switch_b: Seq<char>,
    initial_b: bool,
    text: Seq<char>,
    initial_text: Seq<char>,
) -> Option<(bool, u16, bool, Seq<char>)>;

/// The values in the parser's answer.
pub open spec fn flags_found(
    r: Result<(bool, u16, bool, String), FlagError>,
) -> Option<(bool, u16, bool, Seq<char>)> {
    match r {
        Ok(v) => Some((v.0, v.1, v.2, v.3@)),
        Err(_) => None,
    }
}

/// Calls go-flag's `FlagSet`: `add_flag` for each of the four flags, then `parse_with_warnings`
/// without a list for warnings. Trusted: the outcome depends on the arguments alone, and without
/// any `args` the flags keep their initial values. The names must differ, since `add_flag` panics
/// on a name that it has.
#[verifier::external_body]
fn parse_flags(
    args: &Vec<String>,
    switch_a: (&str, bool),
    number: (&str, u16),
    switch_b: (&str, bool),
    text: (&str, String),
) -> (r: Result<(bool, u16, bool, String), FlagError>)
    requires
        switch_a.0@ != number.0@,
        switch_a.0@ != switch_b.0@,
        switch_a.0@ != text.0@,
        number.0@ != switch_b.0@,
        number.0@ != text.0@,
        switch_b.0@ != text.0@,
    ensures
        flags_found(r) == parsed_flags(
            texts(args@),
            switch_a.0@,
            switch_a.1,
            number.0@,
            number.1,
            switch_b.0@,
            switch_b.1,
            text.0@,
            text.1@,
        ),
        args@.len() == 0 ==> flags_found(r) == Some(
            (switch_a.1, number.1, switch_b.1, text.1@),
        ),
{
    let (mut a, mut n, mut b, mut t) = (switch_a.1, number.1, switch_b.1, text.1);
    let mut flags = FlagSet::new();
    flags.add_flag(switch_a.0, &mut a);
    flags.add_flag(number.0, &mut n);
    flags.add_flag(switch_b.0, &mut b);
    flags.add_flag(text.0, &mut t);
    flags.parse_with_warnings::<String, String>(args, None)?;
    drop(flags);
    Ok((a, n, b, t))
}

/// The configuration after one option. An option that is not known changes nothing.
pub open spec fn with_option(c: BackendFsConfig, option: Seq<char>) -> BackendFsConfig {
    if option == "cache=none"@ {
        BackendFsConfig { cache: CACHE_NONE, ..c }
    } else if option == "cache=auto"@ {
        BackendFsConfig { cache: CACHE_AUTO, ..c }
    } else if option == "cache=always"@ {
        BackendFsConfig { cache: CACHE_ALWAYS, ..c }
    } else if option == "no_open"@ {
        BackendFsConfig { no_open: true, ..c }
    } else if option == "open"@ {
        BackendFsConfig { no_open: false, ..c }
    } else if option == "writeback_cache"@ || option == "writeback"@ {
        BackendFsConfig { writeback_cache: true, ..c }
    } else if option == "no_writeback_cache"@ || option == "no_writeback"@ {
        BackendFsConfig { writeback_cache: false, ..c }
    } else if option == "xattr"@ {
        BackendFsConfig { xattr: true, ..c }
    } else if option == "no_xattr"@ {
        BackendFsConfig { xattr: false, ..c }
    } else if option == "no_readdir"@ {
        BackendFsConfig { no_readdir: true, ..c }
    } else {
        c
    }
}

/// The configuration after a list of options, one after the other.
pub open spec fn with_options(c: BackendFsConfig, options: Seq<Seq<char>>) -> BackendFsConfig
    decreases options.len(),
{
    if options.len() == 0 {
        c
    } else {
        with_option(with_options(c, options.drop_last()), options.last())
    }
}

/// The configuration that the flags ask for: privilege bits are always cleared by the guest, and
/// the list of options is parted by commas. What nobody asks for is as in `plain`.
pub open spec fn backend_config(
    plain: BackendFsConfig,
    thread_pool_size: u16,
    drop_sys_resource: bool,
    options: Seq<char>,
) -> BackendFsConfig {
    with_options(
        BackendFsConfig {
            thread_pool_size,
            drop_sys_resource,
            killpriv_v2: true,
            ..plain
        },
        split(options, ','),
    )
}

/// The values that the server's flags have for `args`; those that `args` do not mention are as in
/// `plain`.
pub open spec fn server_flags(
    args: Seq<Seq<char>>,
    plain: BackendFsConfig,
) -> Option<(bool, u16, bool, Seq<char>)> {
    parsed_flags(
        args,
        FLAG_DEBUG@,
        false,
        FLAG_THREAD_POOL_SIZE@,
        plain.thread_pool_size,
        FLAG_DROP_SYS_RESOURCE@,
        plain.drop_sys_resource,
        FLAG_OPTIONS@,
        Seq::empty(),
    )
}

/// Applies one option.
fn apply_option(c: &mut BackendFsConfig, option: &str)
    ensures
        *final(c) == with_option(*old(c), option@),
{
    if str_eq(option, "cache=none") {
        c.cache = CACHE_NONE;
    } else if str_eq(option, "cache=auto") {
        c.cache = CACHE_AUTO;
    } else if str_eq(option, "cache=always") {
        c.cache = CACHE_ALWAYS;
    } else if str_eq(option, "no_open") {
        c.no_open = true;
    } else if str_eq(option, "open") {
        c.no_open = false;
    } else if str_eq(option, "writeback_cache") || str_eq(option, "writeback") {
        c.writeback_cache = true;
    } else if str_eq(option, "no_writeback_cache") || str_eq(option, "no_writeback") {
        c.writeback_cache = false;
    } else if str_eq(option, "xattr") {
        c.xattr = true;
    } else if str_eq(option, "no_xattr") {
        c.xattr = false;
    } else if str_eq(option, "no_readdir") {
        c.no_readdir = true;
    }
}

/// The configuration that the values of the flags ask for. What they do not decide is as in
/// `plain`.
pub fn config_from_flags(values: &FlagValues, plain: BackendFsConfig) -> (r: BackendFsConfig)
    ensures
        r == backend_config(
            plain,
            values.thread_pool_size,
            values.drop_sys_resource,
            values.options@,
        ),
{
    let mut c = plain;
    c.thread_pool_size = values.thread_pool_size;
    c.drop_sys_resource = values.drop_sys_resource;
    c.killpriv_v2 = true;
    let ghost start = c;
    let options = split_str(values.options.as_str(), ',');
    let mut i: usize = 0;
    while i < options.len()
        invariant
            i <= options@.len(),
            c == with_options(start, texts(options@).take(i as int)),
        decreases options@.len() - i,
    {
        proof {
            assert(texts(options@).take(i + 1).drop_last() =~= texts(options@).take(i as int));
        }
        apply_option(&mut c, options[i].as_str());
        i = i + 1;
    }
    proof {
        assert(texts(options@).take(i as int) =~= texts(options@));
    }
    c
}

/// Reads the arguments of the server. What they do not mention is as in `plain`. It fails where the
/// flag parser does.
pub fn parse_inline_virtiofs_args(
    extra_args: &Vec<String>,
    plain: BackendFsConfig,
) -> (r: Result<BackendFsConfig, DeviceError>)
    ensures
        r == (match server_flags(texts(extra_args@), plain) {
            Some(v) => Ok::<BackendFsConfig, DeviceError>(backend_config(plain, v.1, v.2, v.3)),
            None => Err(DeviceError::InvalidServerArgs),
        }),
        extra_args@.len() == 0 ==> r == Ok::<BackendFsConfig, DeviceError>(
            backend_config(
                plain,
                plain.thread_pool_size,
                plain.drop_sys_resource,
                Seq::empty(),
            ),
        ),
{
    proof {
        reveal_strlit("d");
        reveal_strlit("thread-pool-size");
        reveal_strlit("drop-sys-resource");
        reveal_strlit("o");
        assert(FLAG_DEBUG@[0] != FLAG_OPTIONS@[0]);
        assert(FLAG_DEBUG@.len() == 1 && FLAG_OPTIONS@.len() == 1);
        assert(FLAG_THREAD_POOL_SIZE@.len() == 16 && FLAG_DROP_SYS_RESOURCE@.len() == 17);
    }
    let initial = String::new();
    proof {
        assert(initial@ =~= Seq::<char>::empty());
    }
    match parse_flags(
        extra_args,
        (FLAG_DEBUG, false),
        (FLAG_THREAD_POOL_SIZE, plain.thread_pool_size),
        (FLAG_DROP_SYS_RESOURCE, plain.drop_sys_resource),
        (FLAG_OPTIONS, initial),
    ) {
        Ok(v) => {
            let values = FlagValues {
                debug: v.0,
                thread_pool_size: v.1,
                drop_sys_resource: v.2,
                options: v.3,
            };
            Ok(config_from_flags(&values, plain))
        },
        Err(_) => Err(DeviceError::InvalidServerArgs),
    }
}

/// Options are applied from left to right: a list after another list goes on from where the first
/// one ended.
pub proof fn law_options_in_sequence(
    c: BackendFsConfig,
    first: Seq<Seq<char>>,
    second: Seq<Seq<char>>,
)
    ensures
        with_options(c, first + second) == with_options(with_options(c, first), second),
    decreases second.len(),
{
    if second.len() == 0 {
        assert(first + second =~= first);
    } else {
        assert((first + second).drop_last() =~= first + second.drop_last());
        law_options_in_sequence(c, first, second.drop_last());
    }
}

/// An option given twice in a row counts once.
pub proof fn law_option_idempotent(c: BackendFsConfig, option: Seq<char>)
    ensures
        with_option(with_option(c, option), option) == with_option(c, option),
{
}

/// No list of options changes what the flags alone decide.
pub proof fn law_options_leave_flags(c: BackendFsConfig, options: Seq<Seq<char>>)
    ensures
        with_options(c, options).thread_pool_size == c.thread_pool_size,
        with_options(c, options).drop_sys_resource == c.drop_sys_resource,
        with_options(c, options).killpriv_v2 == c.killpriv_v2,
    decreases options.len(),
{
    if options.len() > 0 {
        law_options_leave_flags(c, options.drop_last());
    }
}

/// Whatever the options say, the server has the size and the flag that were given, and it drops
/// privileges when a file is written.
pub proof fn law_flags_as_given(values: FlagValues, plain: BackendFsConfig, r: BackendFsConfig)
    requires
        call_ensures(config_from_flags, (&values, plain), r),
    ensures
        r.thread_pool_size == values.thread_pool_size,
        r.drop_sys_resource == values.drop_sys_resource,
        r.killpriv_v2,
{
    law_options_leave_flags(
        BackendFsConfig {
            thread_pool_size: values.thread_pool_size,
            drop_sys_resource: values.drop_sys_resource,
            killpriv_v2: true,
            ..plain
        },
        split(values.options@, ','),
    );
}

/// What the last option says counts, whatever others say: for the cache, for opening, for writing
/// back, for attributes and for listing. The options are separated by commas.
pub proof fn law_last_option_counts(
    values: FlagValues,
    plain: BackendFsConfig,
    r: BackendFsConfig,
)
    requires
        call_ensures(config_from_flags, (&values, plain), r),
    ensures
        ({
            let last = split(values.options@, ',').last();
            &&& last == "cache=none"@ ==> r.cache == 2
            &&& last == "cache=auto"@ ==> r.cache == 0
            &&& last == "cache=always"@ ==> r.cache == 1
            &&& last == "no_open"@ ==> r.no_open
            &&& last == "open"@ ==> !r.no_open
            &&& last == "writeback_cache"@ || last == "writeback"@ ==> r.writeback_cache
            &&& last == "no_writeback_cache"@ || last == "no_writeback"@ ==> !r.writeback_cache
            &&& last == "xattr"@ ==> r.xattr
            &&& last == "no_xattr"@ ==> !r.xattr
            &&& last == "no_readdir"@ ==> r.no_readdir
        }),
{
    let options = split(values.options@, ',');
    let start = BackendFsConfig {
        thread_pool_size: values.thread_pool_size,
        drop_sys_resource: values.drop_sys_resource,
        killpriv_v2: true,
        ..plain
    };
    crate::text::lemma_split_nonempty(values.options@, ',');
    assert(r == with_options(start, options));
    law_option_sets_its_field(with_options(start, options.drop_last()), options.last());
}

/// Each option sets the one field that it is about and no other, and a word that is no option sets
/// nothing.
pub proof fn law_option_sets_its_field(c: BackendFsConfig, option: Seq<char>)
    ensures
        ({
            let r = with_option(c, option);
            &&& option == "cache=none"@ ==> r == (BackendFsConfig { cache: 2, ..c })
            &&& option == "cache=auto"@ ==> r == (BackendFsConfig { cache: 0, ..c })
            &&& option == "cache=always"@ ==> r == (BackendFsConfig { cache: 1, ..c })
            &&& option == "no_open"@ ==> r == (BackendFsConfig { no_open: true, ..c })
            &&& option == "open"@ ==> r == (BackendFsConfig { no_open: false, ..c })
            &&& option == "writeback_cache"@ || option == "writeback"@ ==> r == (BackendFsConfig {
                writeback_cache: true,
                ..c
            })
            &&& option == "no_writeback_cache"@ || option == "no_writeback"@ ==> r
                == (BackendFsConfig { writeback_cache: false, ..c })
            &&& option == "xattr"@ ==> r == (BackendFsConfig { xattr: true, ..c })
            &&& option == "no_xattr"@ ==> r == (BackendFsConfig { xattr: false, ..c })
            &&& option == "no_readdir"@ ==> r == (BackendFsConfig { no_readdir: true, ..c })
            &&& r.cache != c.cache ==> option == "cache=none"@ || option == "cache=auto"@ || option
                == "cache=always"@
            &&& r.no_open != c.no_open ==> option == "no_open"@ || option == "open"@
            &&& r.xattr != c.xattr ==> option == "xattr"@ || option == "no_xattr"@
            &&& r.no_readdir != c.no_readdir ==> option == "no_readdir"@
            &&& r.writeback_cache && !c.writeback_cache ==> option == "writeback_cache"@ || option
                == "writeback"@
            &&& !r.writeback_cache && c.writeback_cache ==> option == "no_writeback_cache"@
                || option == "no_writeback"@
            &&& r.thread_pool_size == c.thread_pool_size && r.drop_sys_resource
                == c.drop_sys_resource && r.killpriv_v2 == c.killpriv_v2
        }),
{
    reveal_strlit("cache=none");
    reveal_strlit("cache=auto");
    reveal_strlit("cache=always");
    reveal_strlit("no_open");
    reveal_strlit("open");
    reveal_strlit("writeback_cache");
    reveal_strlit("writeback");
    reveal_strlit("no_writeback_cache");
    reveal_strlit("no_writeback");
    reveal_strlit("xattr");
    reveal_strlit("no_xattr");
    reveal_strlit("no_readdir");
    assert("cache=none"@[6] == 'n' && "cache=auto"@[6] == 'a' && "no_readdir"@[6] == 'd');
    assert("cache=always"@[0] == 'c' && "no_writeback"@[0] == 'n');
    assert("cache=always"@.len() == 12 && "no_writeback"@.len() == 12 && "cache=none"@.len() == 10);
    assert("no_open"@.len() == 7 && "open"@.len() == 4 && "xattr"@.len() == 5);
    assert("writeback_cache"@.len() == 15 && "writeback"@.len() == 9);
    assert("no_writeback_cache"@.len() == 18 && "no_xattr"@.len() == 8);
    assert("cache=auto"@.len() == 10 && "no_readdir"@.len() == 10);
}

/// Without options everything but the two flags is as it was.
pub proof fn law_no_options_change_nothing(
    values: FlagValues,
    plain: BackendFsConfig,
    r: BackendFsConfig,
)
    requires
        call_ensures(config_from_flags, (&values, plain), r),
        values.options@.len() == 0,
    ensures
        r.cache == plain.cache && r.no_open == plain.no_open && r.writeback_cache
            == plain.writeback_cache && r.xattr == plain.xattr && r.no_readdir == plain.no_readdir,
{
    let options = split(values.options@, ',');
    let start = BackendFsConfig {
        thread_pool_size: values.thread_pool_size,
        drop_sys_resource: values.drop_sys_resource,
        killpriv_v2: true,
        ..plain
    };
    assert(options =~= seq![Seq::empty()]);
    assert(options.drop_last() =~= Seq::empty());
    assert(with_options(start, options.drop_last()) == start);
    assert(r == with_option(start, Seq::empty()));
    lemma_empty_is_no_option(start);
}

/// The arguments are the server's four flags: what they give is what the server is made of, each in
/// its own place, and arguments that cannot be read are refused.
pub proof fn law_arguments_are_four_flags(
    extra_args: Vec<String>,
    plain: BackendFsConfig,
    r: Result<BackendFsConfig, DeviceError>,
    values: FlagValues,
    made: BackendFsConfig,
)
    requires
        call_ensures(parse_inline_virtiofs_args, (&extra_args, plain), r),
        call_ensures(config_from_flags, (&values, plain), made),
    ensures
        ({
            let read = parsed_flags(
                texts(extra_args@),
                "d"@,
                false,
                "thread-pool-size"@,
                plain.thread_pool_size,
                "drop-sys-resource"@,
                plain.drop_sys_resource,
                "o"@,
                Seq::empty(),
            );
            &&& read is None <==> r == Err::<BackendFsConfig, DeviceError>(
                DeviceError::InvalidServerArgs,
            )
            &&& read matches Some(v) ==> (r matches Ok(c) && c.thread_pool_size == v.1
                && c.drop_sys_resource == v.2 && c.killpriv_v2)
            &&& read matches Some(v) ==> (values.thread_pool_size == v.1
                && values.drop_sys_resource == v.2 && values.options@ == v.3 ==> r == Ok::<
                BackendFsConfig,
                DeviceError,
            >(made))
        }),
        extra_args@.len() == 0 ==> (r matches Ok(c) && c == (BackendFsConfig {
            killpriv_v2: true,
            ..plain
        })),
{
    if let Some(v) = server_flags(texts(extra_args@), plain) {
        law_options_leave_flags(
            BackendFsConfig {
                thread_pool_size: v.1,
                drop_sys_resource: v.2,
                killpriv_v2: true,
                ..plain
            },
            split(v.3, ','),
        );
    }
    if extra_args@.len() == 0 {
        let none: Seq<char> = Seq::empty();
        let options = split(none, ',');
        let start = BackendFsConfig { killpriv_v2: true, ..plain };
        assert(options =~= seq![none]);
        assert(options.drop_last() =~= Seq::empty());
        assert(with_options(start, options.drop_last()) == start);
        lemma_empty_is_no_option(start);
    }
}

/// The empty word is no option.
proof fn lemma_empty_is_no_option(c: BackendFsConfig)
    ensures
        with_option(c, Seq::empty()) == c,
{
    reveal_strlit("cache=none");
    reveal_strlit("cache=auto");
    reveal_strlit("cache=always");
    reveal_strlit("no_open");
    reveal_strlit("open");
    reveal_strlit("writeback_cache");
    reveal_strlit("writeback");
    reveal_strlit("no_writeback_cache");
    reveal_strlit("no_writeback");
    reveal_strlit("xattr");
    reveal_strlit("no_xattr");
    reveal_strlit("no_readdir");
    let none: Seq<char> = Seq::empty();
    assert(none.len() == 0);
}

} // verus!
