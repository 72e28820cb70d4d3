use vstd::prelude::*;

verus! {

/// The flag names active for a platform. Lookup misses (including the empty
/// string, the disabled state) yield the empty set, not an error. The
/// mapping for `"wechat-miniprogram"` deliberately lists two casings of the
/// same flag; call sites may use either.
pub open spec fn platform_flags_spec(platform: Seq<char>) -> Seq<Seq<char>> {
    if platform == "web"@ {
        seq!["isWeb"@]
    } else if platform == "node"@ {
        seq!["isNode"@]
    } else if platform == "weex"@ {
        seq!["isWeex"@]
    } else if platform == "kraken"@ {
        seq!["isKraken"@, "isWeb"@]
    } else if platform == "wechat-miniprogram"@ {
        seq!["isWeChatMiniProgram"@, "isWeChatMiniprogram"@]
    } else if platform == "miniapp"@ {
        seq!["isMiniApp"@]
    } else if platform == "bytedance-microapp"@ {
        seq!["isByteDanceMicroApp"@]
    } else if platform == "kuaishou-miniprogram"@ {
        seq!["isKuaiShouMiniProgram"@]
    } else if platform == "baidu-smartprogram"@ {
        seq!["isBaiduSmartProgram"@]
    } else {
        Seq::empty()
    }
}

/// Resolve a platform name to its flag names, such as `["isWeb"]`.
pub fn platform_flags(platform: &String) -> (flags: Vec<String>)
    ensures
        flags.deep_view() == platform_flags_spec(platform@),
{
    let mut flags: Vec<String> = Vec::new();
    if *platform == "web".to_owned() {
        flags.push("isWeb".to_owned());
        assert(flags.deep_view() =~= seq!["isWeb"@]);
    } else if *platform == "node".to_owned() {
        flags.push("isNode".to_owned());
        assert(flags.deep_view() =~= seq!["isNode"@]);
    } else if *platform == "weex".to_owned() {
        flags.push("isWeex".to_owned());
        assert(flags.deep_view() =~= seq!["isWeex"@]);
    } else if *platform == "kraken".to_owned() {
        flags.push("isKraken".to_owned());
        flags.push("isWeb".to_owned());
        assert(flags.deep_view() =~= seq!["isKraken"@, "isWeb"@]);
    } else if *platform == "wechat-miniprogram".to_owned() {
        flags.push("isWeChatMiniProgram".to_owned());
        flags.push("isWeChatMiniprogram".to_owned());
        assert(flags.deep_view() =~= seq!["isWeChatMiniProgram"@, "isWeChatMiniprogram"@]);
    } else if *platform == "miniapp".to_owned() {
        flags.push("isMiniApp".to_owned());
        assert(flags.deep_view() =~= seq!["isMiniApp"@]);
    } else if *platform == "bytedance-microapp".to_owned() {
        flags.push("isByteDanceMicroApp".to_owned());
        assert(flags.deep_view() =~= seq!["isByteDanceMicroApp"@]);
    } else if *platform == "kuaishou-miniprogram".to_owned() {
        flags.push("isKuaiShouMiniProgram".to_owned());
        assert(flags.deep_view() =~= seq!["isKuaiShouMiniProgram"@]);
    } else if *platform == "baidu-smartprogram".to_owned() {
        flags.push("isBaiduSmartProgram".to_owned());
        assert(flags.deep_view() =~= seq!["isBaiduSmartProgram"@]);
    } else {
        assert(flags.deep_view() =~= Seq::<Seq<char>>::empty());
    }
    flags
}

/// Whether `name` is one of `flags`.
pub fn contains_flag(flags: &Vec<String>, name: &String) -> (r: bool)
    ensures
        r == flags.deep_view().contains(name@),
{
    let mut i: usize = 0;
    while i < flags.len()
        invariant
            i <= flags.len(),
            forall|j: int| 0 <= j < i ==> flags.deep_view()[j] != name@,
        decreases flags.len() - i,
    {
        if flags[i] == *name {
            assert(flags.deep_view()[i as int] == name@);
            return true;
        }
        assert(flags.deep_view()[i as int] != name@);
        i += 1;
    }
    assert(!flags.deep_view().contains(name@));
    false
}

} // verus!
