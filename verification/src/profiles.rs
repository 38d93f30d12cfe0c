//! The closed set of supported database profiles and the static facts
//! each one owns: the eight generic placeholder values consumed by the
//! variable table, the configuration block spliced into the generated
//! settings file, and the dependency fragment spliced into the build
//! manifest.  All of it is fixed data; the contracts state it verbatim.

use vstd::prelude::*;

verus! {

/// The supported persistence backends.
#[derive(Clone, Copy, Debug, PartialEq, Eq, Structural)]
pub enum DatabaseType {
    Postgres,
    Mysql,
    H2,
    Mongo,
}

/// The views of a vector of borrowed `(token, value)` pairs.
pub open spec fn str_pair_views(reps: Seq<(&str, &str)>) -> Seq<(Seq<char>, Seq<char>)> {
    reps.map_values(|p: (&str, &str)| (p.0@, p.1@))
}

/// The eight generic `(token, value)` pairs a profile contributes to
/// the variable table: image, type, data path, healthcheck, connection
/// URL, port, ORM dialect class and driver class, in that order.
pub open spec fn db_vars_spec(db: DatabaseType) -> Seq<(Seq<char>, Seq<char>)> {
    match db {
        DatabaseType::Postgres => seq![
            ("{{DB_IMAGE}}"@, "postgres:17-alpine"@),
            ("{{DB_TYPE}}"@, "postgres"@),
            ("{{DB_DATA_PATH}}"@, "postgresql/data"@),
            ("{{DB_HEALTHCHECK}}"@, "pg_isready -U appuser -d appdb"@),
            ("{{DB_JDBC_URL}}"@, "jdbc:postgresql://db:5432/appdb"@),
            ("{{DB_PORT}}"@, "5432"@),
            ("{{DB_DIALECT}}"@, "org.hibernate.dialect.PostgreSQLDialect"@),
            ("{{DB_DRIVER}}"@, "org.postgresql.Driver"@),
        ],
        DatabaseType::Mysql => seq![
            ("{{DB_IMAGE}}"@, "mysql:8"@),
            ("{{DB_TYPE}}"@, "mysql"@),
            ("{{DB_DATA_PATH}}"@, "mysql/data"@),
            ("{{DB_HEALTHCHECK}}"@, "mysqladmin ping -h localhost -u root -proot"@),
            ("{{DB_JDBC_URL}}"@, "jdbc:mysql://db:3306/appdb?useSSL=false&serverTimezone=UTC"@),
            ("{{DB_PORT}}"@, "3306"@),
            ("{{DB_DIALECT}}"@, "org.hibernate.dialect.MySQLDialect"@),
            ("{{DB_DRIVER}}"@, "com.mysql.cj.jdbc.Driver"@),
        ],
        DatabaseType::H2 => seq![
            ("{{DB_IMAGE}}"@, "h2database/h2:latest"@),
            ("{{DB_TYPE}}"@, "h2"@),
            ("{{DB_DATA_PATH}}"@, "h2/data"@),
            ("{{DB_HEALTHCHECK}}"@, "java -cp /opt/h2/bin/h2*.jar org.h2.tools.Server -web -webPort 8082"@),
            ("{{DB_JDBC_URL}}"@, "jdbc:h2:mem:appdb"@),
            ("{{DB_PORT}}"@, "8082"@),
            ("{{DB_DIALECT}}"@, "org.hibernate.dialect.H2Dialect"@),
            ("{{DB_DRIVER}}"@, "org.h2.Driver"@),
        ],
        DatabaseType::Mongo => seq![
            ("{{DB_IMAGE}}"@, "mongo:7"@),
            ("{{DB_TYPE}}"@, "mongo"@),
            ("{{DB_DATA_PATH}}"@, "mongodb/data"@),
            ("{{DB_HEALTHCHECK}}"@, "mongosh --eval 'db.adminCommand(\"ping\")'"@),
            ("{{DB_JDBC_URL}}"@, "mongodb://db:27017/appdb"@),
            ("{{DB_PORT}}"@, "27017"@),
            ("{{DB_DIALECT}}"@, ""@),
            ("{{DB_DRIVER}}"@, ""@),
        ],
    }
}

/// The profile's eight generic placeholder pairs, exactly as
/// `db_vars_spec` lists them.
pub fn get_db_vars(db: &DatabaseType) -> (res: Vec<(&'static str, &'static str)>)
    ensures
        str_pair_views(res@) == db_vars_spec(*db),
{
    let res: Vec<(&'static str, &'static str)> = match db {
        DatabaseType::Postgres => vec![
            ("{{DB_IMAGE}}", "postgres:17-alpine"),
            ("{{DB_TYPE}}", "postgres"),
            ("{{DB_DATA_PATH}}", "postgresql/data"),
            ("{{DB_HEALTHCHECK}}", "pg_isready -U appuser -d appdb"),
            ("{{DB_JDBC_URL}}", "jdbc:postgresql://db:5432/appdb"),
            ("{{DB_PORT}}", "5432"),
            ("{{DB_DIALECT}}", "org.hibernate.dialect.PostgreSQLDialect"),
            ("{{DB_DRIVER}}", "org.postgresql.Driver"),
        ],
        DatabaseType::Mysql => vec![
            ("{{DB_IMAGE}}", "mysql:8"),
            ("{{DB_TYPE}}", "mysql"),
            ("{{DB_DATA_PATH}}", "mysql/data"),
            ("{{DB_HEALTHCHECK}}", "mysqladmin ping -h localhost -u root -proot"),
            ("{{DB_JDBC_URL}}", "jdbc:mysql://db:3306/appdb?useSSL=false&serverTimezone=UTC"),
            ("{{DB_PORT}}", "3306"),
            ("{{DB_DIALECT}}", "org.hibernate.dialect.MySQLDialect"),
            ("{{DB_DRIVER}}", "com.mysql.cj.jdbc.Driver"),
        ],
        DatabaseType::H2 => vec![
            ("{{DB_IMAGE}}", "h2database/h2:latest"),
            ("{{DB_TYPE}}", "h2"),
            ("{{DB_DATA_PATH}}", "h2/data"),
            ("{{DB_HEALTHCHECK}}", "java -cp /opt/h2/bin/h2*.jar org.h2.tools.Server -web -webPort 8082"),
            ("{{DB_JDBC_URL}}", "jdbc:h2:mem:appdb"),
            ("{{DB_PORT}}", "8082"),
            ("{{DB_DIALECT}}", "org.hibernate.dialect.H2Dialect"),
            ("{{DB_DRIVER}}", "org.h2.Driver"),
        ],
        DatabaseType::Mongo => vec![
            ("{{DB_IMAGE}}", "mongo:7"),
            ("{{DB_TYPE}}", "mongo"),
            ("{{DB_DATA_PATH}}", "mongodb/data"),
            ("{{DB_HEALTHCHECK}}", "mongosh --eval 'db.adminCommand(\"ping\")'"),
            ("{{DB_JDBC_URL}}", "mongodb://db:27017/appdb"),
            ("{{DB_PORT}}", "27017"),
            ("{{DB_DIALECT}}", ""),
            ("{{DB_DRIVER}}", ""),
        ],
    };
    assert(str_pair_views(res@) =~= db_vars_spec(*db));
    res
}

/// Every profile contributes exactly eight pairs, and every value is
/// non-empty except the dialect and driver entries (the last two),
/// which are empty exactly for the MongoDB profile.
pub proof fn lemma_db_vars_shape(db: DatabaseType)
    ensures
        db_vars_spec(db).len() == 8,
        forall|i: int|
            0 <= i < 8 ==> ((#[trigger] db_vars_spec(db)[i]).1.len() > 0 <==> !(db
                == DatabaseType::Mongo && i >= 6)),
{
    reveal_strlit("postgres:17-alpine");
    reveal_strlit("postgres");
    reveal_strlit("postgresql/data");
    reveal_strlit("pg_isready -U appuser -d appdb");
    reveal_strlit("jdbc:postgresql://db:5432/appdb");
    reveal_strlit("5432");
    reveal_strlit("org.hibernate.dialect.PostgreSQLDialect");
    reveal_strlit("org.postgresql.Driver");
    reveal_strlit("mysql:8");
    reveal_strlit("mysql");
    reveal_strlit("mysql/data");
    reveal_strlit("mysqladmin ping -h localhost -u root -proot");
    reveal_strlit("jdbc:mysql://db:3306/appdb?useSSL=false&serverTimezone=UTC");
    reveal_strlit("3306");
    reveal_strlit("org.hibernate.dialect.MySQLDialect");
    reveal_strlit("com.mysql.cj.jdbc.Driver");
    reveal_strlit("h2database/h2:latest");
    reveal_strlit("h2");
    reveal_strlit("h2/data");
    reveal_strlit("java -cp /opt/h2/bin/h2*.jar org.h2.tools.Server -web -webPort 8082");
    reveal_strlit("jdbc:h2:mem:appdb");
    reveal_strlit("8082");
    reveal_strlit("org.hibernate.dialect.H2Dialect");
    reveal_strlit("org.h2.Driver");
    reveal_strlit("mongo:7");
    reveal_strlit("mongo");
    reveal_strlit("mongodb/data");
    reveal_strlit("mongosh --eval 'db.adminCommand(\"ping\")'");
    reveal_strlit("mongodb://db:27017/appdb");
    reveal_strlit("27017");
    reveal_strlit("");
}

/// Outside the MongoDB profile (whose dialect and driver values are
/// empty), every profile value is visibly foreign to the placeholder
/// tokens: non-empty, brace-free, and opening with a lower-case letter
/// or digit, which no token contains.
pub proof fn lemma_db_values_token_safe(db: DatabaseType)
    requires
        db != DatabaseType::Mongo,
    ensures
        forall|i: int|
            0 <= i < 8 ==> crate::subst::token_safe_value((#[trigger] db_vars_spec(db)[i]).1),
{
    reveal_strlit("postgres:17-alpine");
    reveal_strlit("postgres");
    reveal_strlit("postgresql/data");
    reveal_strlit("pg_isready -U appuser -d appdb");
    reveal_strlit("jdbc:postgresql://db:5432/appdb");
    reveal_strlit("5432");
    reveal_strlit("org.hibernate.dialect.PostgreSQLDialect");
    reveal_strlit("org.postgresql.Driver");
    reveal_strlit("mysql:8");
    reveal_strlit("mysql");
    reveal_strlit("mysql/data");
    reveal_strlit("mysqladmin ping -h localhost -u root -proot");
    reveal_strlit("jdbc:mysql://db:3306/appdb?useSSL=false&serverTimezone=UTC");
    reveal_strlit("3306");
    reveal_strlit("org.hibernate.dialect.MySQLDialect");
    reveal_strlit("com.mysql.cj.jdbc.Driver");
    reveal_strlit("h2database/h2:latest");
    reveal_strlit("h2");
    reveal_strlit("h2/data");
    reveal_strlit("java -cp /opt/h2/bin/h2*.jar org.h2.tools.Server -web -webPort 8082");
    reveal_strlit("jdbc:h2:mem:appdb");
    reveal_strlit("8082");
    reveal_strlit("org.hibernate.dialect.H2Dialect");
    reveal_strlit("org.h2.Driver");
}

/// The multi-line settings block that replaces `{{DB_CONFIG}}` in the
/// generated configuration file.
pub open spec fn config_block_spec(db: DatabaseType) -> Seq<char> {
    match db {
        DatabaseType::Postgres => (r#"
  datasource:
    url: ${DATABASE_URL:jdbc:postgresql://localhost:5432/appdb}
    username: ${DATABASE_USERNAME:appuser}
    password: ${DATABASE_PASSWORD:changeme}
    driver-class-name: org.postgresql.Driver
  jpa:
    hibernate:
      ddl-auto: update
    show-sql: false
    properties:
      hibernate:
        dialect: org.hibernate.dialect.PostgreSQLDialect
        format_sql: true"#)@,
        DatabaseType::Mysql => (r#"
  datasource:
    url: ${DATABASE_URL:jdbc:mysql://localhost:3306/appdb}
    username: ${DATABASE_USERNAME:root}
    password: ${DATABASE_PASSWORD:root}
    driver-class-name: com.mysql.cj.jdbc.Driver
  jpa:
    hibernate:
      ddl-auto: update
    show-sql: false
    properties:
      hibernate:
        dialect: org.hibernate.dialect.MySQLDialect
        format_sql: true"#)@,
        DatabaseType::H2 => (r#"
  datasource:
    url: jdbc:h2:mem:testdb
    driver-class-name: org.h2.Driver
  h2:
    console:
      enabled: true
  jpa:
    hibernate:
      ddl-auto: create-drop
    defer-datasource-initialization: true"#)@,
        DatabaseType::Mongo => (r#"
  data:
    mongodb:
      uri: ${MONGODB_URI:mongodb://localhost:27017/appdb}"#)@,
    }
}

/// The profile's settings block, exactly as `config_block_spec` states it.
pub fn db_config_block(db: DatabaseType) -> (res: &'static str)
    ensures
        res@ == config_block_spec(db),
{
    match db {
        DatabaseType::Postgres => r#"
  datasource:
    url: ${DATABASE_URL:jdbc:postgresql://localhost:5432/appdb}
    username: ${DATABASE_USERNAME:appuser}
    password: ${DATABASE_PASSWORD:changeme}
    driver-class-name: org.postgresql.Driver
  jpa:
    hibernate:
      ddl-auto: update
    show-sql: false
    properties:
      hibernate:
        dialect: org.hibernate.dialect.PostgreSQLDialect
        format_sql: true"#,
        DatabaseType::Mysql => r#"
  datasource:
    url: ${DATABASE_URL:jdbc:mysql://localhost:3306/appdb}
    username: ${DATABASE_USERNAME:root}
    password: ${DATABASE_PASSWORD:root}
    driver-class-name: com.mysql.cj.jdbc.Driver
  jpa:
    hibernate:
      ddl-auto: update
    show-sql: false
    properties:
      hibernate:
        dialect: org.hibernate.dialect.MySQLDialect
        format_sql: true"#,
        DatabaseType::H2 => r#"
  datasource:
    url: jdbc:h2:mem:testdb
    driver-class-name: org.h2.Driver
  h2:
    console:
      enabled: true
  jpa:
    hibernate:
      ddl-auto: create-drop
    defer-datasource-initialization: true"#,
        DatabaseType::Mongo => r#"
  data:
    mongodb:
      uri: ${MONGODB_URI:mongodb://localhost:27017/appdb}"#,
    }
}

/// The dependency declaration that replaces `{{DB_DEPENDENCY}}` in the
/// generated build manifest.
pub open spec fn dependency_fragment_spec(db: DatabaseType) -> Seq<char> {
    match db {
        DatabaseType::Postgres => (r#"
        <dependency>
            <groupId>org.postgresql</groupId>
            <artifactId>postgresql</artifactId>
            <scope>runtime</scope>
        </dependency>"#)@,
        DatabaseType::Mysql => (r#"
        <dependency>
            <groupId>mysql</groupId>
            <artifactId>mysql-connector-java</artifactId>
            <scope>runtime</scope>
        </dependency>"#)@,
        DatabaseType::H2 => (r#"
        <dependency>
            <groupId>com.h2database</groupId>
            <artifactId>h2</artifactId>
            <scope>runtime</scope>
        </dependency>"#)@,
        DatabaseType::Mongo => (r#"
        <dependency>
            <groupId>org.springframework.boot</groupId>
            <artifactId>spring-boot-starter-data-mongodb</artifactId>
        </dependency>"#)@,
    }
}

/// The profile's manifest dependency fragment, exactly as
/// `dependency_fragment_spec` states it.
pub fn db_dependency_fragment(db: DatabaseType) -> (res: &'static str)
    ensures
        res@ == dependency_fragment_spec(db),
{
    match db {
        DatabaseType::Postgres => r#"
        <dependency>
            <groupId>org.postgresql</groupId>
            <artifactId>postgresql</artifactId>
            <scope>runtime</scope>
        </dependency>"#,
        DatabaseType::Mysql => r#"
        <dependency>
            <groupId>mysql</groupId>
            <artifactId>mysql-connector-java</artifactId>
            <scope>runtime</scope>
        </dependency>"#,
        DatabaseType::H2 => r#"
        <dependency>
            <groupId>com.h2database</groupId>
            <artifactId>h2</artifactId>
            <scope>runtime</scope>
        </dependency>"#,
        DatabaseType::Mongo => r#"
        <dependency>
            <groupId>org.springframework.boot</groupId>
            <artifactId>spring-boot-starter-data-mongodb</artifactId>
        </dependency>"#,
    }
}

} // verus!
