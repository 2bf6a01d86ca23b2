use upload_stick::command::Error;
use upload_stick::parted::{drop_units, linear_table, parted_find_first_start_length, parted_find_last_free};

#[test]
fn main_test_parted_find_last_free() {
    let (from, to) = parted_find_last_free("
            BYT;
            /dev/mmcblk0:31915MB:sd/mmc:512:512:msdos:SD ACLCD:;
            1:0.02MB:4.19MB:4.18MB:free;
            1:4.19MB:46.1MB:41.9MB:fat16::boot, lba;
            2:46.1MB:201MB:155MB:ext3::;
            1:201MB:31915MB:31714MB:free;
        ").unwrap();
    assert_eq!(from, "201MB");
    assert_eq!(to, "31915MB");
}

#[test]
fn upload_stick_prepare_test_parted_find_last_free() {
    let (from, to) = parted_find_last_free("
            BYT;
            /dev/mmcblk0:31915MB:sd/mmc:512:512:msdos:SD ACLCD:;
            1:0.02MB:4.19MB:4.18MB:free;
            1:4.19MB:46.1MB:41.9MB:fat16::boot, lba;
            2:46.1MB:201MB:155MB:ext3::;
            1:201MB:31915MB:31714MB:free;
        ").unwrap();
    assert_eq!(from, "201MB");
    assert_eq!(to, "31915MB");
}

#[test]
fn test_parted_find_first_start_length() {
    let (from, length) = parted_find_first_start_length("
            BYT;
            /dev/dm-4:30900224s:unknown:512:512:msdos:Unknown:;
            1:8192s:30900223s:30892032s:::lba;
        ").unwrap();
    assert_eq!(from, "8192s");
    assert_eq!(length, "30892032s");
}

#[test]
fn test_drop_units() {
    assert_eq!(drop_units("30892032s"), "30892032");
}

#[test]
fn drop_units_keeps_a_bare_number() {
    assert_eq!(drop_units("30892032"), "30892032");
    assert_eq!(drop_units("s"), "");
    assert_eq!(drop_units(""), "");
    assert_eq!(drop_units("4.19MB"), "4");
}

#[test]
fn last_free_takes_the_last_of_two() {
    let (from, to) = parted_find_last_free("1:0.02MB:4.19MB:4.18MB:free;\n1:201MB:31915MB:31714MB:free;\n").unwrap();
    assert_eq!(from, "201MB");
    assert_eq!(to, "31915MB");
}

#[test]
fn last_free_single_line_without_newline() {
    let (from, to) = parted_find_last_free("  1: 5MB : 9MB :4MB:free;  ").unwrap();
    assert_eq!(from, "5MB");
    assert_eq!(to, "9MB");
}

#[test]
fn last_free_missing() {
    let out = "BYT;\n1:4.19MB:46.1MB:41.9MB:fat16::boot, lba;\n";
    assert_eq!(parted_find_last_free(out), Err(Error::PartitionFreeNotFound(out.to_string())));
    assert_eq!(parted_find_last_free(""), Err(Error::PartitionFreeNotFound(String::new())));
}

#[test]
fn last_free_too_few_fields() {
    assert_eq!(
        parted_find_last_free("BYT;\n   1:2MBfree;\n"),
        Err(Error::PartitionFreeFieldsNotFound("   1:2MBfree;".to_string()))
    );
}

#[test]
fn first_partition_ignores_other_numbers() {
    let out = "BYT;\n2:1s:2s:3s:::;\n 1:8192s:30900223s:30892032s:::lba;\n1:9s:10s:11s:::;\n";
    let (from, length) = parted_find_first_start_length(out).unwrap();
    assert_eq!(from, "8192s");
    assert_eq!(length, "30892032s");
}

#[test]
fn first_partition_missing() {
    let out = "BYT;\n2:1s:2s:3s:::;\n";
    assert_eq!(parted_find_first_start_length(out), Err(Error::Partition1NotFound(out.to_string())));
}

#[test]
fn first_partition_too_few_fields() {
    assert_eq!(
        parted_find_first_start_length("\n  1:8192s:9s\n"),
        Err(Error::PartitionFieldsNotFound("  1:8192s:9s".to_string()))
    );
}

#[test]
fn first_partition_line_with_carriage_return() {
    let (from, length) = parted_find_first_start_length("BYT;\r\n1:8192s:30900223s:30892032s:::lba;\r\n").unwrap();
    assert_eq!(from, "8192s");
    assert_eq!(length, "30892032s");
}

#[test]
fn linear_table_of_listing() {
    let table = linear_table(
        "BYT;\n/dev/dm-4:30900224s:unknown:512:512:msdos:Unknown:;\n1:8192s:30900223s:30892032s:::lba;\n",
        "/dev/data/mass_storage_snap",
    )
    .unwrap();
    assert_eq!(table, "0 30892032 linear /dev/data/mass_storage_snap 8192");
}

#[test]
fn linear_table_without_partition() {
    assert_eq!(
        linear_table("BYT;\n", "/dev/data/x"),
        Err(Error::Partition1NotFound("BYT;\n".to_string()))
    );
}

#[test]
fn carriage_return_only_dropped_before_newline() {
    assert_eq!(
        parted_find_first_start_length("1:x\r"),
        Err(Error::PartitionFieldsNotFound("1:x\r".to_string()))
    );
    assert_eq!(
        parted_find_first_start_length("1:x\r\n"),
        Err(Error::PartitionFieldsNotFound("1:x".to_string()))
    );
}

#[test]
fn first_partition_unchanged_by_other_lines() {
    let base = "BYT;\n1:8192s:30900223s:30892032s:::lba;\n";
    let with_others = "\n2:46.1MB:201MB:155MB:ext3::;\nBYT;\n   10:8s:9s:2s:::;\n\n1:8192s:30900223s:30892032s:::lba;\n2:1s:2s:3s:::;\n";
    assert_eq!(parted_find_first_start_length(base), parted_find_first_start_length(with_others));
    assert_eq!(
        parted_find_first_start_length(with_others).unwrap(),
        ("8192s".to_string(), "30892032s".to_string())
    );
}
