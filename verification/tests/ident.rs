use gcpx::ident::unescaped_backticks;

#[test]
fn counts_only_backticks_that_are_not_escaped() {
    assert_eq!(unescaped_backticks("`a`"), 2);
    assert_eq!(unescaped_backticks("`a\\`b`"), 2);
    assert_eq!(unescaped_backticks("\\\\`"), 1);
    assert_eq!(unescaped_backticks(""), 0);
    assert_eq!(unescaped_backticks("no ticks"), 0);
    assert_eq!(unescaped_backticks("trailing \\"), 0);
    assert_eq!(unescaped_backticks("é`é\\`"), 1);
}
