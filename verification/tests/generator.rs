use spring_gen::profiles::{get_db_vars, db_config_block, db_dependency_fragment, DatabaseType};
use spring_gen::stages::{
    classify_entry, config_relative_path, is_template_name, java_source_root,
    manifest_relative_path, package_placeholder, package_to_path, patch_config_content,
    patch_manifest_content, template_output_name, WalkStep,
};
use spring_gen::subst::{apply_replacements, matches_at, replace_all};
use spring_gen::table::{build_replacements, render, u16_to_dec};

const ALL_DBS: [DatabaseType; 4] = [
    DatabaseType::Postgres,
    DatabaseType::Mysql,
    DatabaseType::H2,
    DatabaseType::Mongo,
];

#[test]
fn db_vars_have_eight_entries_for_every_profile() {
    for db in ALL_DBS {
        assert_eq!(get_db_vars(&db).len(), 8);
    }
}

#[test]
fn db_vars_values_empty_only_for_mongo_dialect_and_driver() {
    for db in ALL_DBS {
        let vars = get_db_vars(&db);
        for (i, (token, value)) in vars.iter().enumerate() {
            assert!(!token.is_empty());
            let expect_empty = db == DatabaseType::Mongo && i >= 6;
            assert_eq!(value.is_empty(), expect_empty, "profile {:?} entry {}", db, i);
        }
    }
}

#[test]
fn db_vars_postgres_exact() {
    let vars = get_db_vars(&DatabaseType::Postgres);
    assert_eq!(
        vars,
        vec![
            ("{{DB_IMAGE}}", "postgres:17-alpine"),
            ("{{DB_TYPE}}", "postgres"),
            ("{{DB_DATA_PATH}}", "postgresql/data"),
            ("{{DB_HEALTHCHECK}}", "pg_isready -U appuser -d appdb"),
            ("{{DB_JDBC_URL}}", "jdbc:postgresql://db:5432/appdb"),
            ("{{DB_PORT}}", "5432"),
            ("{{DB_DIALECT}}", "org.hibernate.dialect.PostgreSQLDialect"),
            ("{{DB_DRIVER}}", "org.postgresql.Driver"),
        ]
    );
}

#[test]
fn db_vars_mongo_exact() {
    let vars = get_db_vars(&DatabaseType::Mongo);
    assert_eq!(
        vars,
        vec![
            ("{{DB_IMAGE}}", "mongo:7"),
            ("{{DB_TYPE}}", "mongo"),
            ("{{DB_DATA_PATH}}", "mongodb/data"),
            ("{{DB_HEALTHCHECK}}", "mongosh --eval 'db.adminCommand(\"ping\")'"),
            ("{{DB_JDBC_URL}}", "mongodb://db:27017/appdb"),
            ("{{DB_PORT}}", "27017"),
            ("{{DB_DIALECT}}", ""),
            ("{{DB_DRIVER}}", ""),
        ]
    );
}

#[test]
fn table_lists_sixteen_entries_in_order() {
    let reps = build_replacements("app", "com.example.myapp", "com.example", "myapp", 8080, DatabaseType::Postgres);
    let tokens: Vec<&str> = reps.iter().map(|p| p.0.as_str()).collect();
    assert_eq!(
        tokens,
        vec![
            "{{APPLICATION_NAME}}",
            "{{PACKAGE_NAME}}",
            "{{GROUP_ID}}",
            "{{ARTIFACT_ID}}",
            "{{APP_NAME}}",
            "{{BASE_PACKAGE}}",
            "{{JWT_SECRET}}",
            "{{SERVER_PORT}}",
            "{{DB_IMAGE}}",
            "{{DB_TYPE}}",
            "{{DB_DATA_PATH}}",
            "{{DB_HEALTHCHECK}}",
            "{{DB_JDBC_URL}}",
            "{{DB_PORT}}",
            "{{DB_DIALECT}}",
            "{{DB_DRIVER}}",
        ]
    );
    assert_eq!(reps[0].1, "app");
    assert_eq!(reps[1].1, "com.example.myapp");
    assert_eq!(reps[2].1, "com.example");
    assert_eq!(reps[3].1, "myapp");
    assert_eq!(reps[4].1, "app");
    assert_eq!(reps[5].1, "com.example.myapp");
    assert_eq!(reps[6].1, "myapp-super-secret-key-change-in-prod");
    assert_eq!(reps[7].1, "8080");
}

#[test]
fn port_renders_in_decimal() {
    assert_eq!(u16_to_dec(0), "0");
    assert_eq!(u16_to_dec(7), "7");
    assert_eq!(u16_to_dec(8080), "8080");
    assert_eq!(u16_to_dec(9090), "9090");
    assert_eq!(u16_to_dec(65535), "65535");
}

#[test]
fn replace_all_is_leftmost_and_non_overlapping() {
    assert_eq!(replace_all("a{{X}}b", "{{X}}", "1"), "a1b");
    assert_eq!(replace_all("aaa", "aa", "b"), "ba");
    assert_eq!(replace_all("no token here", "{{X}}", "1"), "no token here");
    assert_eq!(replace_all("xay", "a", ""), "xy");
    assert_eq!(replace_all("{{X}}{{X}}", "{{X}}", "."), "..");
}

#[test]
fn matches_at_checks_one_position() {
    assert!(matches_at("abcd", 1, "bc"));
    assert!(!matches_at("abcd", 2, "bc"));
    assert!(!matches_at("abcd", 3, "de"));
}

#[test]
fn substitution_is_a_left_fold_over_the_table() {
    // An application name that is itself a later token gets replaced in
    // turn: the fold applies each entry to the cumulative result, an
    // accepted quirk of the design.
    let out = render(
        "{{APPLICATION_NAME}}",
        "{{SERVER_PORT}}",
        "com.example.myapp",
        "com.example",
        "myapp",
        8080,
        DatabaseType::Postgres,
    );
    assert_eq!(out, "8080");
}

#[test]
fn rendering_leaves_no_recognized_token_behind() {
    let template = "name={{APPLICATION_NAME}} pkg={{PACKAGE_NAME}} group={{GROUP_ID}} \
                    artifact={{ARTIFACT_ID}} app={{APP_NAME}} base={{BASE_PACKAGE}} \
                    secret={{JWT_SECRET}} port={{SERVER_PORT}} image={{DB_IMAGE}} \
                    type={{DB_TYPE}} data={{DB_DATA_PATH}} health={{DB_HEALTHCHECK}} \
                    url={{DB_JDBC_URL}} dbport={{DB_PORT}} dialect={{DB_DIALECT}} \
                    driver={{DB_DRIVER}}";
    let out = render(
        template,
        "app",
        "com.example.myapp",
        "com.example",
        "myapp",
        8080,
        DatabaseType::Postgres,
    );
    let reps = build_replacements("app", "com.example.myapp", "com.example", "myapp", 8080, DatabaseType::Postgres);
    for (token, _) in &reps {
        assert!(!out.contains(token.as_str()), "token {} survived: {}", token, out);
    }
}

#[test]
fn directories_are_mirrored_even_when_empty() {
    assert_eq!(classify_entry(true, "empty_dir"), WalkStep::MakeDir);
    assert_eq!(classify_entry(true, "notes.txt.tpl"), WalkStep::MakeDir);
}

#[test]
fn plain_files_are_never_copied() {
    assert_eq!(classify_entry(false, "readme.md"), WalkStep::Ignore);
    assert_eq!(classify_entry(false, "Dockerfile"), WalkStep::Ignore);
    assert_eq!(classify_entry(false, ".tpl"), WalkStep::Ignore);
}

#[test]
fn template_files_are_rendered_with_the_suffix_stripped() {
    assert_eq!(
        classify_entry(false, "pom.xml.tpl"),
        WalkStep::RenderTo(String::from("pom.xml"))
    );
    assert_eq!(
        classify_entry(false, "application.yml.tpl"),
        WalkStep::RenderTo(String::from("application.yml"))
    );
}

#[test]
fn template_name_detection() {
    assert!(is_template_name("a.tpl"));
    assert!(is_template_name("archive.tar.tpl"));
    assert!(!is_template_name(".tpl"));
    assert!(!is_template_name("app.yml"));
    assert!(!is_template_name("tpl"));
    assert_eq!(template_output_name("archive.tar.tpl"), "archive.tar");
}

#[test]
fn package_path_replaces_every_dot() {
    assert_eq!(package_to_path("com.example.myapp"), "com/example/myapp");
    assert_eq!(package_to_path("single"), "single");
    assert_eq!(package_to_path(""), "");
}

#[test]
fn fixed_locations() {
    assert_eq!(config_relative_path(), "src/main/resources/application.yml");
    assert_eq!(manifest_relative_path(), "pom.xml");
    assert_eq!(java_source_root(), "src/main/java");
    assert_eq!(package_placeholder(), "{{PACKAGE_PATH}}");
}

#[test]
fn config_patch_replaces_the_placeholder_for_every_profile() {
    for db in ALL_DBS {
        let content = "spring:\n{{DB_CONFIG}}\n";
        let patched = patch_config_content(content, db);
        let expected = format!("spring:\n{}\n", db_config_block(db));
        assert_eq!(patched, expected, "profile {:?}", db);
        assert!(!patched.contains("{{DB_CONFIG}}"));
    }
}

#[test]
fn config_patch_without_placeholder_changes_nothing() {
    let content = "spring:\n  application:\n    name: app\n";
    for db in ALL_DBS {
        assert_eq!(patch_config_content(content, db), content);
    }
}

#[test]
fn manifest_patch_replaces_the_placeholder_for_every_profile() {
    for db in ALL_DBS {
        let content = "<dependencies>{{DB_DEPENDENCY}}\n</dependencies>";
        let patched = patch_manifest_content(content, db);
        let expected = format!("<dependencies>{}\n</dependencies>", db_dependency_fragment(db));
        assert_eq!(patched, expected, "profile {:?}", db);
        assert!(!patched.contains("{{DB_DEPENDENCY}}"));
    }
}

#[test]
fn manifest_patch_without_placeholder_changes_nothing() {
    let content = "<project></project>";
    for db in ALL_DBS {
        assert_eq!(patch_manifest_content(content, db), content);
    }
}

#[test]
fn mysql_config_block_exact() {
    let block = db_config_block(DatabaseType::Mysql);
    assert!(block.contains("url: ${DATABASE_URL:jdbc:mysql://localhost:3306/appdb}"));
    assert!(block.contains("driver-class-name: com.mysql.cj.jdbc.Driver"));
    assert!(block.contains("dialect: org.hibernate.dialect.MySQLDialect"));
}

#[test]
fn apply_replacements_runs_in_table_order() {
    let reps = vec![
        (String::from("{{A}}"), String::from("{{B}}")),
        (String::from("{{B}}"), String::from("done")),
    ];
    assert_eq!(apply_replacements("{{A}}", &reps), "done");
    let reps_reversed = vec![
        (String::from("{{B}}"), String::from("done")),
        (String::from("{{A}}"), String::from("{{B}}")),
    ];
    assert_eq!(apply_replacements("{{A}}", &reps_reversed), "{{B}}");
}

#[test]
fn end_to_end_mysql_on_port_9090() {
    // The walk renders the two template files...
    let pom_tpl = "<project>\n  <groupId>{{GROUP_ID}}</groupId>\n  \
                   <dependencies>{{DB_DEPENDENCY}}\n  </dependencies>\n</project>\n";
    let yml_tpl = "spring:\n  application:\n    name: {{APPLICATION_NAME}}\n{{DB_CONFIG}}\n\
                   server:\n  port: {{SERVER_PORT}}\n";
    let pom = render(pom_tpl, "shop", "com.acme.shop", "com.acme", "shop", 9090, DatabaseType::Mysql);
    let yml = render(yml_tpl, "shop", "com.acme.shop", "com.acme", "shop", 9090, DatabaseType::Mysql);
    // ...the table does not know the two patch placeholders, so they survive,
    assert!(pom.contains("{{DB_DEPENDENCY}}"));
    assert!(yml.contains("{{DB_CONFIG}}"));
    assert!(yml.contains("port: 9090"));
    assert!(!yml.contains("{{SERVER_PORT}}"));
    // ...then the two patch steps fill them with the MySQL fragments.
    let pom = patch_manifest_content(&pom, DatabaseType::Mysql);
    let yml = patch_config_content(&yml, DatabaseType::Mysql);
    assert!(pom.contains("<groupId>com.acme</groupId>"));
    assert!(pom.contains(
        "<dependency>\n            <groupId>mysql</groupId>\n            \
         <artifactId>mysql-connector-java</artifactId>\n            \
         <scope>runtime</scope>\n        </dependency>"
    ));
    assert!(yml.contains("url: ${DATABASE_URL:jdbc:mysql://localhost:3306/appdb}"));
    assert!(yml.contains("dialect: org.hibernate.dialect.MySQLDialect"));
    assert!(yml.contains("9090"));
}

#[test]
fn mongo_renders_dialect_and_driver_as_empty() {
    let out = render(
        "d={{DB_DIALECT}}. v={{DB_DRIVER}}.",
        "app",
        "com.example.myapp",
        "com.example",
        "myapp",
        8080,
        DatabaseType::Mongo,
    );
    assert_eq!(out, "d=. v=.");
}

#[test]
fn an_empty_value_can_reassemble_a_token() {
    // The MongoDB profile's dialect value is empty, and removing a
    // token can splice a new occurrence of it together out of the
    // surrounding text.  This is the accepted risk of the left fold
    // (and why the elimination law excludes empty values).
    let out = render(
        "{{DB_DIA{{DB_DIALECT}}LECT}}",
        "app",
        "com.example.myapp",
        "com.example",
        "myapp",
        8080,
        DatabaseType::Mongo,
    );
    assert_eq!(out, "{{DB_DIALECT}}");
}

#[test]
fn rerun_with_same_inputs_is_deterministic() {
    let tpl = "n={{APPLICATION_NAME}} p={{SERVER_PORT}} i={{DB_IMAGE}}";
    let a = render(tpl, "app", "com.example.myapp", "com.example", "myapp", 8080, DatabaseType::H2);
    let b = render(tpl, "app", "com.example.myapp", "com.example", "myapp", 8080, DatabaseType::H2);
    assert_eq!(a, b);
    assert_eq!(a, "n=app p=8080 i=h2database/h2:latest");
}
