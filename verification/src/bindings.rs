use vstd::prelude::*;
use vstd::string::{StringExecFns, StringSliceAdditionalSpecFns};

verus! {

/// Uppercases one ASCII letter (byte 97 `a` through 122 `z`); every other
/// byte passes through unchanged.
pub open spec fn ascii_upper(c: u8) -> u8 {
    if 97 <= c && c <= 122 {
        (c - 32) as u8
    } else {
        c
    }
}

/// The mangled tail of a logical name: a separator (byte 95, `_`) is consumed
/// and forces the next byte to upper case, a NUL ends the name, and every
/// other byte passes through (uppercased while an upper-case byte is owed).
pub open spec fn mangle_tail(s: Seq<u8>, upper_next: bool) -> Seq<u8>
    decreases s.len(),
{
    if s.len() == 0 {
        Seq::empty()
    } else if s[0] == 0 {
        Seq::empty()
    } else if s[0] == 95 {
        mangle_tail(s.skip(1), true)
    } else if upper_next {
        seq![ascii_upper(s[0])] + mangle_tail(s.skip(1), false)
    } else {
        seq![s[0]] + mangle_tail(s.skip(1), false)
    }
}

/// The canonical external symbol for a logical name: the two-letter prefix
/// (bytes 103 108, `gl`), then the name with separators removed and word
/// starts uppercased.
pub open spec fn mangled_name(s: Seq<u8>) -> Seq<u8> {
    seq![103u8, 108u8] + mangle_tail(s, true)
}

/// The number of mangled bytes that fit in the fixed buffer, leaving the
/// terminating NUL in place.
pub open spec fn kept(n: int) -> int {
    if n < 63 {
        n
    } else {
        63
    }
}

fn upper_byte(c: u8) -> (r: u8)
    ensures
        r == ascii_upper(c),
{
    if 97 <= c && c <= 122 {
        c - 32
    } else {
        c
    }
}

/// Whether `buffer` is the symbol buffer for the logical name: the mangled
/// name as far as it fits, NUL-padded to the end, the last byte always NUL.
pub open spec fn symbol_buffer(name: Seq<u8>, buffer: Seq<u8>) -> bool {
    &&& buffer.len() == 64
    &&& forall|j: int|
        0 <= j < 64 ==> buffer[j] == (if j < kept(mangled_name(name).len() as int) {
            mangled_name(name)[j]
        } else {
            0
        })
}

/// Converts an idiomatic function name into the byte buffer holding the
/// API's canonical symbol name, NUL-terminated; a name too long for the
/// buffer is silently truncated.
pub fn to_gl_name(input: &str) -> (r: [u8; 64])
    ensures
        symbol_buffer(input.spec_bytes(), r@),
{
    let bytes = input.as_bytes();
    let ghost s = input.spec_bytes();
    let mut buffer: [u8; 64] = [0; 64];
    buffer[0] = 103;
    buffer[1] = 108;

    let mut index: usize = 0;
    let mut buffer_index: usize = 2;
    let mut to_upper: bool = true;
    let ghost mut done: Seq<u8> = Seq::empty();

    proof {
        assert(s.skip(0) =~= s);
        assert(done + mangle_tail(s, true) =~= mangle_tail(s, true));
    }

    while index < bytes.len() && bytes[index] != 0
        invariant
            bytes@ == s,
            0 <= index <= s.len(),
            buffer_index == kept(2 + done.len() as int),
            mangle_tail(s, true) == done + mangle_tail(s.skip(index as int), to_upper),
            forall|j: int|
                0 <= j < 64 ==> #[trigger] buffer@[j] == ({
                    let g = seq![103u8, 108u8] + done;
                    if j < kept(g.len() as int) {
                        g[j]
                    } else {
                        0
                    }
                }),
        decreases s.len() - index,
    {
        let c = bytes[index];
        proof {
            assert(s.skip(index as int)[0] == s[index as int]);
            assert(s.skip(index as int).skip(1) =~= s.skip(index as int + 1));
        }
        if c == 95 {
            to_upper = true;
        } else {
            let out = if to_upper {
                upper_byte(c)
            } else {
                c
            };
            proof {
                assert(mangle_tail(s.skip(index as int), to_upper) == seq![out]
                    + mangle_tail(s.skip(index as int + 1), false));
                let tail = mangle_tail(s.skip(index as int + 1), false);
                assert(done + (seq![out] + tail) =~= (done + seq![out]) + tail);
            }
            to_upper = false;
            if buffer_index < 63 {
                buffer[buffer_index] = out;
                buffer_index = buffer_index + 1;
            }
            proof {
                done = done + seq![out];
            }
        }
        index = index + 1;
    }
    proof {
        if index < s.len() {
            assert(s.skip(index as int)[0] == s[index as int]);
            assert(mangle_tail(s.skip(index as int), to_upper) =~= Seq::empty());
        } else {
            assert(s.skip(index as int) =~= Seq::<u8>::empty());
        }
        assert(mangled_name(s) =~= seq![103u8, 108u8] + done);
    }
    buffer
}

/// The mangled form of any name keeps the two-letter prefix in front and
/// holds neither a separator nor a NUL, so the buffer's first NUL always
/// terminates the symbol.
pub proof fn lemma_mangled_shape(s: Seq<u8>)
    ensures
        mangled_name(s).len() >= 2,
        mangled_name(s)[0] == 103,
        mangled_name(s)[1] == 108,
        forall|i: int|
            0 <= i < mangled_name(s).len() ==> mangled_name(s)[i] != 0 && #[trigger] mangled_name(
                s,
            )[i] != 95,
{
    lemma_mangle_tail_clean(s, true);
}

/// Failure to resolve one required entry point; carries its logical name.
#[derive(Debug)]
pub struct FunctionLoadingError {
    pub name: &'static str,
}

impl FunctionLoadingError {
    /// The full human-readable description of the failure.
    pub fn message(&self) -> (r: String)
        ensures
            r@ == "failed to load function "@ + self.name@,
    {
        String::from_str("failed to load function ").concat(self.name)
    }
}

/// The documented sentinel values some platform resolvers hand back in place
/// of a missing symbol: null, the small integers 1, 2 and 3, and the all-ones
/// pattern standing for -1.
pub open spec fn is_failure_address(addr: usize) -> bool {
    addr == 0 || addr == 1 || addr == 2 || addr == 3 || addr == usize::MAX
}

/// Whether every address of the set is usable.
pub open spec fn all_resolved(addrs: Seq<usize>) -> bool {
    forall|i: int| 0 <= i < addrs.len() ==> !is_failure_address(#[trigger] addrs[i])
}

/// The runtime test for a failure sentinel.
pub fn failure_address(addr: usize) -> (r: bool)
    ensures
        r == is_failure_address(addr),
{
    addr == 0 || addr == 1 || addr == 2 || addr == 3 || addr == usize::MAX
}

/// Accepts a resolved address exactly when it is not a failure sentinel; a
/// rejection names the symbol the address was resolved for.
pub fn check_resolved(name: &'static str, addr: usize) -> (r: Result<
    usize,
    FunctionLoadingError,
>)
    ensures
        r is Ok <==> !is_failure_address(addr),
        r matches Ok(a) ==> a == addr,
        r matches Err(e) ==> e.name == name,
{
    if failure_address(addr) {
        Err(FunctionLoadingError { name })
    } else {
        Ok(addr)
    }
}

/// The logical names of every required entry point, in table order.
pub open spec fn entry_point_name_list() -> Seq<&'static str> {
    seq![
        "get_error",
        "viewport",
        "enable",
        "disable",
        "blend_func",
        "get_string",
        "clear_color",
        "clear",
        "draw_arrays",
        "draw_elements",
        "gen_vertex_arrays",
        "bind_vertex_array",
        "delete_vertex_arrays",
        "gen_buffers",
        "bind_buffer",
        "buffer_data",
        "buffer_sub_data",
        "bind_buffer_base",
        "delete_buffer",
        "create_shader",
        "shader_source",
        "compile_shader",
        "delete_shader",
        "get_shaderiv",
        "get_shader_info_log",
        "create_program",
        "attach_shader",
        "link_program",
        "detach_shader",
        "use_program",
        "delete_program",
        "gen_textures",
        "active_texture",
        "bind_texture",
        "tex_image_2_d",
        "generate_mipmap",
        "delete_textures",
        "uniform_1i",
        "gen_samplers",
        "bind_samplers",
        "sampler_parameteri",
        "delete_samplers",
    ]
}

/// The logical names of every required entry point, in table order.
pub fn entry_point_names() -> (r: Vec<&'static str>)
    ensures
        r@ == entry_point_name_list(),
{
    let v: Vec<&'static str> = vec![
        "get_error",
        "viewport",
        "enable",
        "disable",
        "blend_func",
        "get_string",
        "clear_color",
        "clear",
        "draw_arrays",
        "draw_elements",
        "gen_vertex_arrays",
        "bind_vertex_array",
        "delete_vertex_arrays",
        "gen_buffers",
        "bind_buffer",
        "buffer_data",
        "buffer_sub_data",
        "bind_buffer_base",
        "delete_buffer",
        "create_shader",
        "shader_source",
        "compile_shader",
        "delete_shader",
        "get_shaderiv",
        "get_shader_info_log",
        "create_program",
        "attach_shader",
        "link_program",
        "detach_shader",
        "use_program",
        "delete_program",
        "gen_textures",
        "active_texture",
        "bind_texture",
        "tex_image_2_d",
        "generate_mipmap",
        "delete_textures",
        "uniform_1i",
        "gen_samplers",
        "bind_samplers",
        "sampler_parameteri",
        "delete_samplers",
    ];
    proof {
        assert(v@ =~= entry_point_name_list());
    }
    v
}

/// Whether the address is a possible resolver answer for the logical name:
/// some buffer holding the name's canonical symbol maps to it.
pub open spec fn resolved_through<F: Fn([u8; 64]) -> usize>(
    loader: F,
    name: &str,
    addr: usize,
) -> bool {
    exists|symbol: [u8; 64]|
        #[trigger] call_ensures(loader, (symbol,), addr) && symbol_buffer(
            name.spec_bytes(),
            symbol@,
        )
}

/// The table of resolved entry points: one usable address per required
/// symbol, in the order of `entry_point_names`. Built all-or-nothing and
/// immutable afterwards.
pub struct Bindings {
    entries: Vec<usize>,
}

impl Bindings {
    /// The resolved addresses, in table order.
    pub closed spec fn spec_entries(self) -> Seq<usize> {
        self.entries@
    }

    /// A table is complete and holds no failure sentinel.
    pub open spec fn wf(self) -> bool {
        self.spec_entries().len() == entry_point_name_list().len() && all_resolved(
            self.spec_entries(),
        )
    }

    /// Builds the table from addresses already resolved for the given names,
    /// in order. Succeeds exactly when no address is a failure sentinel, and
    /// then keeps every address unchanged; otherwise it fails naming the
    /// symbol of the first failure, and no table is produced.
    pub fn from_addresses(names: &Vec<&'static str>, addrs: &Vec<usize>) -> (r: Result<
        Bindings,
        FunctionLoadingError,
    >)
        requires
            names@.len() == addrs@.len(),
        ensures
            r is Ok <==> all_resolved(addrs@),
            r matches Ok(b) ==> b.spec_entries() == addrs@,
            r matches Err(e) ==> exists|j: int|
                0 <= j < addrs@.len() && is_failure_address(#[trigger] addrs@[j]) && (forall|
                    i: int,
                |
                    0 <= i < j ==> !is_failure_address(#[trigger] addrs@[i])) && e.name
                    == names@[j],
    {
        let mut entries: Vec<usize> = Vec::new();
        let mut idx: usize = 0;
        while idx < addrs.len()
            invariant
                idx <= addrs@.len(),
                names@.len() == addrs@.len(),
                entries@ == addrs@.take(idx as int),
                forall|i: int| 0 <= i < idx ==> !is_failure_address(#[trigger] addrs@[i]),
            decreases addrs@.len() - idx,
        {
            match check_resolved(names[idx], addrs[idx]) {
                Ok(addr) => {
                    entries.push(addr);
                    proof {
                        assert(entries@ =~= addrs@.take(idx + 1));
                    }
                },
                Err(e) => {
                    return Err(e);
                },
            }
            idx = idx + 1;
        }
        proof {
            assert(entries@ =~= addrs@);
        }
        Ok(Bindings { entries })
    }

    /// Resolves every required entry point through the given resolver and
    /// builds the table. The resolver receives each symbol's NUL-terminated
    /// canonical name. Whatever addresses come back: a produced table is
    /// well formed and holds, per entry point, exactly an address the
    /// resolver answered for that symbol; a failure names a required entry
    /// point whose symbol the resolver answered with a failure sentinel.
    pub fn load<F: Fn([u8; 64]) -> usize>(loader: F) -> (r: Result<
        Bindings,
        FunctionLoadingError,
    >)
        requires
            forall|symbol: [u8; 64]| #[trigger] loader.requires((symbol,)),
        ensures
            r matches Ok(b) ==> b.wf() && forall|i: int|
                0 <= i < entry_point_name_list().len() ==> resolved_through(
                    loader,
                    #[trigger] entry_point_name_list()[i],
                    b.spec_entries()[i],
                ),
            r matches Err(e) ==> exists|j: int|
                {
                    &&& 0 <= j < entry_point_name_list().len()
                    &&& e.name == #[trigger] entry_point_name_list()[j]
                    &&& exists|addr: usize|
                        #[trigger] resolved_through(loader, entry_point_name_list()[j], addr)
                            && is_failure_address(addr)
                },
    {
        let names = entry_point_names();
        let mut addrs: Vec<usize> = Vec::new();
        let mut i: usize = 0;
        while i < names.len()
            invariant
                names@ == entry_point_name_list(),
                addrs@.len() == i,
                i <= names@.len(),
                forall|symbol: [u8; 64]| #[trigger] loader.requires((symbol,)),
                forall|k: int|
                    0 <= k < i ==> resolved_through(loader, #[trigger] names@[k], addrs@[k]),
            decreases names@.len() - i,
        {
            let symbol = to_gl_name(names[i]);
            let addr = loader(symbol);
            proof {
                assert(call_ensures(loader, (symbol,), addr));
                assert(resolved_through(loader, names@[i as int], addr));
            }
            addrs.push(addr);
            i = i + 1;
        }
        Bindings::from_addresses(&names, &addrs)
    }

    /// How many entry points the table holds.
    pub fn len(&self) -> (r: usize)
        ensures
            r == self.spec_entries().len(),
    {
        self.entries.len()
    }

    /// The resolved address of the entry point at `index` in table order.
    pub fn address(&self, index: usize) -> (r: usize)
        requires
            self.wf(),
            index < entry_point_name_list().len(),
        ensures
            r == self.spec_entries()[index as int],
            !is_failure_address(r),
    {
        self.entries[index]
    }
}

/// All-or-nothing loading: if exactly one required symbol resolves to a
/// failure sentinel, the set as a whole is unresolved — so no table is
/// produced — and that symbol is the first failure, so the load's error
/// names it.
pub proof fn lemma_single_failure(addrs: Seq<usize>, j: int)
    requires
        0 <= j < addrs.len(),
        is_failure_address(addrs[j]),
        forall|i: int| 0 <= i < addrs.len() && i != j ==> !is_failure_address(#[trigger] addrs[i]),
    ensures
        !all_resolved(addrs),
        forall|i: int| 0 <= i < j ==> !is_failure_address(#[trigger] addrs[i]),
{
}

proof fn lemma_mangle_tail_clean(s: Seq<u8>, upper_next: bool)
    ensures
        forall|i: int|
            0 <= i < mangle_tail(s, upper_next).len() ==> #[trigger] mangle_tail(s, upper_next)[i]
                != 0 && mangle_tail(s, upper_next)[i] != 95,
    decreases s.len(),
{
    if s.len() == 0 || s[0] == 0 {
    } else if s[0] == 95 {
        lemma_mangle_tail_clean(s.skip(1), true);
        assert(mangle_tail(s, upper_next) == mangle_tail(s.skip(1), true));
    } else {
        lemma_mangle_tail_clean(s.skip(1), false);
        let m = mangle_tail(s, upper_next);
        let head = if upper_next {
            ascii_upper(s[0])
        } else {
            s[0]
        };
        let rest = mangle_tail(s.skip(1), false);
        assert(m == seq![head] + rest);
        assert forall|i: int| 0 <= i < m.len() implies m[i] != 0 && m[i] != 95 by {
            if i == 0 {
                assert(m[0] == head);
            } else {
                assert(m[i] == rest[i - 1]);
            }
        }
    }
}

} // verus!
