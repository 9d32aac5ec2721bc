use xunlei::xunlei_asset::{
    advance, announced_size, package_filename, package_url, unpack_script, PACKAGE_DIRECTORY,
};

#[test]
fn package_is_named_by_architecture() {
    assert_eq!(package_filename("x86_64"), "nasxunlei-DSM7-x86_64.spk");
    assert_eq!(package_filename("armv8"), "nasxunlei-DSM7-armv8.spk");
    assert_eq!(
        package_url("nasxunlei-DSM7-x86_64.spk"),
        "http://down.sandai.net/nas/nasxunlei-DSM7-x86_64.spk"
    );
    assert_eq!(PACKAGE_DIRECTORY, "/tmp/xunlei_bin");
}

#[test]
fn announced_size_is_a_decimal_number() {
    assert_eq!(announced_size("0"), Some(0));
    assert_eq!(announced_size("1048576"), Some(1048576));
    assert_eq!(announced_size("18446744073709551615"), Some(u64::MAX));
    assert_eq!(announced_size("18446744073709551616"), None);
    assert_eq!(announced_size(""), None);
    assert_eq!(announced_size("12 "), None);
    assert_eq!(announced_size("-1"), None);
    for s in ["7", "+7", "007", "1e3", "٣", "9999999999999999999", "99999999999999999999"] {
        assert_eq!(announced_size(s), s.parse::<u64>().ok());
    }
}

#[test]
fn progress_never_passes_the_announced_size() {
    assert_eq!(advance(0, 1024, 4096), 1024);
    assert_eq!(advance(3072, 1024, 4096), 4096);
    assert_eq!(advance(4000, 1024, 4096), 4096);
    assert_eq!(advance(4096, 1024, 4096), 4096);
    assert_eq!(advance(5000, 10, 4096), 4096);
    assert_eq!(advance(0, 0, 0), 0);
    assert_eq!(advance(0, 5, 0), 0);
    assert_eq!(advance(u64::MAX - 1, 1024, u64::MAX), u64::MAX);
    assert_eq!(advance(u64::MAX - 2000, 1024, u64::MAX), u64::MAX - 976);
    assert_eq!(advance(10, 0, 100), 10);
}

#[test]
fn unpack_script_takes_the_programs_out_of_the_package() {
    let dir = "/tmp/xunlei_bin";
    let filename = "nasxunlei-DSM7-x86_64.spk";
    let expected = format!("tar --wildcards -Oxf $(find {dir} -type f -name {filename} | head -n1) package.tgz | tar --wildcards -xJC {dir} 'bin/bin/*' 'ui/index.cgi' &&
                    mv {dir}/bin/bin/* {dir}/ &&
                    mv {dir}/ui/index.cgi {dir}/xunlei-pan-cli-web &&
                    rm -rf {dir}/bin/bin &&
                    rm -rf {dir}/bin &&
                    rm -rf {dir}/ui &&
                    rm -f {dir}/version_code {dir}/{filename}
                ");
    assert_eq!(unpack_script(dir, filename), expected);
}
